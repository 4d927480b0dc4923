use vstd::prelude::*;

verus! {

/// A piece of data attached to an [`Entity`].
pub trait Component {}

/// Appends `item` to `items`. Proved once for every element type, so that the
/// length and the kept prefix reach callers whose elements are trait objects.
fn append<T>(items: &mut Vec<T>, item: T)
    ensures
        final(items)@ == old(items)@.push(item),
        final(items)@.len() == old(items)@.len() + 1,
        forall|i: int| 0 <= i < old(items)@.len() ==> #[trigger] final(items)@[i] == old(items)@[i],
{
    items.push(item);
}

/// A game object: a type id and its components, in the order they were added.
pub struct Entity {
    pub type_id: u16,
    pub components: Vec<Box<dyn Component>>,
}

impl Entity {
    /// An entity of the given type without components.
    pub fn new(type_id: u16) -> (entity: Self)
        ensures
            entity.type_id == type_id,
            entity.components@ == Seq::<Box<dyn Component>>::empty(),
            entity.components@.len() == 0,
    {
        Entity { type_id, components: Vec::new() }
    }

    /// The entity with `component` added after its other components.
    pub fn with(self, component: Box<dyn Component>) -> (entity: Self)
        ensures
            entity.type_id == self.type_id,
            entity.components@ == self.components@.push(component),
            entity.components@.len() == self.components@.len() + 1,
            forall|i: int|
                0 <= i < self.components@.len() ==> #[trigger] entity.components@[i]
                    == self.components@[i],
    {
        let mut entity = self;
        append(&mut entity.components, component);
        entity
    }
}

} // verus!

