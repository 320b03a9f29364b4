use maybe_owned_trait::MaybeOwned;

#[derive(Debug, PartialEq)]
struct Generation(u32);

impl Clone for Generation {
    fn clone(&self) -> Self {
        Generation(self.0 + 1)
    }
}

fn keep(items: impl MaybeOwned<Owned = Vec<u8>>) -> Vec<u8> {
    items.to_owned()
}

#[test]
fn slice_to_owned_copies_the_elements() {
    let source = [3u32, 1, 2];
    let owned: Vec<u32> = MaybeOwned::to_owned(&source[..]);
    assert_eq!(owned, vec![3, 1, 2]);
    assert_eq!(owned.capacity(), 3);
}

#[test]
fn slice_to_owned_clones_each_element() {
    let source = [String::from("a"), String::from("bc")];
    let owned: Vec<String> = MaybeOwned::to_owned(&source[..]);
    assert_eq!(owned, vec![String::from("a"), String::from("bc")]);

    let source = [Generation(1), Generation(5)];
    let owned: Vec<Generation> = MaybeOwned::to_owned(&source[..]);
    assert_eq!(owned, vec![Generation(2), Generation(6)]);
    assert_eq!(source, [Generation(1), Generation(5)]);
}

#[test]
fn slice_to_owned_is_independent_of_its_source() {
    let mut source = vec![1u8, 2, 3];
    let owned: Vec<u8> = MaybeOwned::to_owned(source.as_slice());
    source[0] = 9;
    assert_eq!(owned, vec![1, 2, 3]);
}

#[test]
fn slice_borrow_is_the_slice_itself() {
    let source = [1u8, 2, 3];
    let slice: &[u8] = &source[1..];
    let view: &[u8] = MaybeOwned::borrow(&slice);
    assert_eq!(view, &[2, 3]);
    assert!(std::ptr::eq(view, slice));
}

#[test]
fn empty_slice() {
    let slice: &[u64] = &[];
    let owned: Vec<u64> = MaybeOwned::to_owned(slice);
    assert_eq!(owned, Vec::<u64>::new());
    let view: &[u64] = MaybeOwned::borrow(&slice);
    assert!(view.is_empty());
}

#[test]
fn vec_to_owned_is_the_vector_itself() {
    let mut source: Vec<u16> = Vec::with_capacity(32);
    source.extend([7, 8, 9]);
    let start = source.as_ptr() as usize;
    let owned: Vec<u16> = MaybeOwned::to_owned(source);
    assert_eq!(owned, vec![7, 8, 9]);
    assert_eq!(owned.capacity(), 32);
    assert_eq!(owned.as_ptr() as usize, start);
}

#[test]
fn vec_to_owned_clones_nothing() {
    let source = vec![Generation(1), Generation(5)];
    let owned: Vec<Generation> = MaybeOwned::to_owned(source);
    assert_eq!(owned, vec![Generation(1), Generation(5)]);
}

#[test]
fn vec_borrow_looks_into_the_vector() {
    let source = vec![Generation(4), Generation(2)];
    let view: &[Generation] = MaybeOwned::borrow(&source);
    assert_eq!(view, &[Generation(4), Generation(2)]);
    assert!(std::ptr::eq(view, source.as_slice()));
}

#[test]
fn sequence_round_trips() {
    let source = [10i64, -20, 30];
    let slice: &[i64] = &source;
    let through_owned = MaybeOwned::to_owned(slice);
    assert_eq!(MaybeOwned::borrow(&through_owned), MaybeOwned::borrow(&slice));

    let vector = vec![10i64, -20, 30];
    let through_owned = MaybeOwned::to_owned(vector.clone());
    assert_eq!(MaybeOwned::borrow(&through_owned), MaybeOwned::borrow(&vector));
}

#[test]
fn generic_routine_takes_vector_and_slice() {
    assert_eq!(keep(vec![1u8, 2]), vec![1, 2]);
    assert_eq!(keep(&[1u8, 2][..]), vec![1, 2]);
}
