//! The coordinate system of a frame and the stack that saves it.

use vstd::prelude::*;

use crate::native::{
    identity, is_identity_matrix, negate, negated, pre_rotate, pre_rotate_gives, pre_scale,
    pre_scale_gives, pre_translate, pre_translate_gives,
};

verus! {

/// An affine transform of the plane.
///
/// `is_identity` marks a transform that nothing has been applied to, so
/// that drawing under it can leave its input as it is.
#[derive(Clone, Copy, Debug)]
pub struct Transform {
    /// The matrix of the transform.
    pub raw: lyon::math::Transform,
    /// Whether no operation has been applied to the transform.
    pub is_identity: bool,
}

/// What a [`Transforms`] holds: the transform in force and the saved ones,
/// the oldest first.
pub ghost struct TransformsView {
    pub current: Transform,
    pub saved: Seq<Transform>,
}

impl TransformsView {
    /// The number of saves that have not been restored.
    pub open spec fn depth(self) -> nat {
        self.saved.len()
    }

    /// The stack after the transform in force has been saved.
    pub open spec fn save(self) -> TransformsView {
        TransformsView { current: self.current, saved: self.saved.push(self.current) }
    }

    /// The stack after the last saved transform has been put back in force.
    pub open spec fn restore(self) -> TransformsView
        recommends
            self.depth() > 0,
    {
        TransformsView { current: self.saved.last(), saved: self.saved.drop_last() }
    }

    /// The stack with `raw` as the matrix in force, which no longer counts
    /// as the identity.
    pub open spec fn with_matrix(self, raw: lyon::math::Transform) -> TransformsView {
        TransformsView { current: Transform { raw, is_identity: false }, saved: self.saved }
    }
}

/// The current transform of a frame and the transforms saved before it.
#[derive(Debug)]
pub struct Transforms {
    previous: Vec<Transform>,
    current: Transform,
}

impl View for Transforms {
    type V = TransformsView;

    closed spec fn view(&self) -> TransformsView {
        TransformsView { current: self.current, saved: self.previous@ }
    }
}

impl Transforms {
    /// Creates a stack with nothing saved and a transform in force that
    /// counts as the identity.
    pub fn new() -> (transforms: Transforms)
        ensures
            transforms@.current.is_identity,
            is_identity_matrix(transforms@.current.raw),
            transforms@.depth() == 0,
    {
        Transforms { previous: Vec::new(), current: Transform { raw: identity(), is_identity: true } }
    }

    /// Returns the transform in force.
    pub fn current(&self) -> (current: Transform)
        ensures
            current == self@.current,
    {
        self.current
    }

    /// Returns the number of saves that have not been restored.
    pub fn depth(&self) -> (depth: usize)
        ensures
            depth == self@.depth(),
    {
        self.previous.len()
    }

    /// Saves the transform in force on top of the saved ones.
    pub fn save(&mut self)
        ensures
            final(self)@ == old(self)@.save(),
    {
        self.previous.push(self.current);
    }

    /// Puts the last saved transform back in force and forgets the save.
    ///
    /// There has to be a save to go back to: a restore without one is an
    /// error of the caller. [`Transforms::try_restore`] tells instead.
    pub fn restore(&mut self)
        requires
            old(self)@.depth() > 0,
        ensures
            final(self)@ == old(self)@.restore(),
    {
        let saved = self.previous.pop();
        match saved {
            Some(transform) => {
                self.current = transform;
            },
            None => {},
        }
    }

    /// Restores as [`Transforms::restore`] does where a transform is saved,
    /// and returns whether it did; without a save nothing changes.
    pub fn try_restore(&mut self) -> (restored: bool)
        ensures
            restored == (old(self)@.depth() > 0),
            restored ==> final(self)@ == old(self)@.restore(),
            !restored ==> final(self)@ == old(self)@,
    {
        if self.previous.len() > 0 {
            self.restore();
            true
        } else {
            false
        }
    }

    /// Puts the matrix `raw` in force. The transform no longer counts as
    /// the identity.
    pub fn set_matrix(&mut self, raw: lyon::math::Transform)
        ensures
            final(self)@ == old(self)@.with_matrix(raw),
    {
        self.current.raw = raw;
        self.current.is_identity = false;
    }

    /// Applies a translation before the transform in force.
    ///
    /// The saved transforms stay; the new matrix is one that
    /// `pre_translate` of the geometry kernel gives for the matrix in force
    /// and the translation.
    pub fn translate(&mut self, translation: iced_native::Vector)
        ensures
            final(self)@ == old(self)@.with_matrix(final(self)@.current.raw),
            pre_translate_gives(old(self)@.current.raw, translation, final(self)@.current.raw),
    {
        let raw = pre_translate(&self.current.raw, translation);
        self.set_matrix(raw);
    }

    /// Applies a rotation before the transform in force.
    ///
    /// The kernel is handed the negated angle, here and wherever a frame
    /// rotates. The saved transforms stay; the new matrix is one that
    /// `pre_rotate` of the geometry kernel gives for the matrix in force
    /// and the negated angle.
    pub fn rotate(&mut self, angle: lyon::math::Angle)
        ensures
            final(self)@ == old(self)@.with_matrix(final(self)@.current.raw),
            pre_rotate_gives(old(self)@.current.raw, negated(angle), final(self)@.current.raw),
    {
        let raw = pre_rotate(&self.current.raw, negate(angle));
        self.set_matrix(raw);
    }

    /// Applies a scaling by the same factor in both axes before the
    /// transform in force.
    ///
    /// The saved transforms stay; the new matrix is one that `pre_scale`
    /// of the geometry kernel gives for the matrix in force and the factor.
    pub fn scale(&mut self, scale: lyon::math::Scale)
        ensures
            final(self)@ == old(self)@.with_matrix(final(self)@.current.raw),
            pre_scale_gives(old(self)@.current.raw, scale, final(self)@.current.raw),
    {
        let raw = pre_scale(&self.current.raw, scale);
        self.set_matrix(raw);
    }
}

/// A restore after a save gives back the stack as it was.
pub proof fn lemma_save_then_restore(stack: TransformsView)
    ensures
        stack.save().restore() == stack,
{
    assert(stack.saved.push(stack.current).drop_last() =~= stack.saved);
}

/// Whatever is put in force between a save and its restore, the restore
/// gives back the stack as it was before the save, provided that the saved
/// transforms are then what the save left.
pub proof fn lemma_restore_undoes_scoped_changes(stack: TransformsView, inner: TransformsView)
    requires
        inner.saved == stack.save().saved,
    ensures
        inner.restore() == stack,
{
    assert(stack.saved.push(stack.current).drop_last() =~= stack.saved);
}

/// A restore that follows a save finds a transform to go back to, whatever
/// was put in force in between, provided that the saved transforms are then
/// what the save left: only a restore without its save is left without one.
pub proof fn lemma_scoped_restore_finds_its_save(stack: TransformsView, inner: TransformsView)
    requires
        inner.saved == stack.save().saved,
    ensures
        inner.depth() > 0,
        inner.restore().depth() == stack.depth(),
{
    assert(stack.saved.push(stack.current).drop_last() =~= stack.saved);
}

} // verus!
