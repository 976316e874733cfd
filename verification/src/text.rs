//! The fonts of the text pipeline: which font has which place in the store
//! of loaded fonts.
//!
//! Place 0 belongs to the default font. An external font gets the next free
//! place when its name is registered, and keeps it: whoever registers a
//! name first decides where it stands. To load and to render the fonts is
//! left to the owner of the store.

use vstd::prelude::*;

use crate::primitive::Font;

verus! {

/// The place of a font in the store of loaded fonts.
#[derive(Clone, Copy, Debug, PartialEq, Eq, Structural)]
pub struct FontId(pub usize);

/// The place of the external font called `name`, where `names` are the
/// registered names in the order of their registration: one more than the
/// first index at which the name stands; `None` where the name is not among
/// them.
pub open spec fn place_of(names: Seq<Seq<char>>, name: Seq<char>) -> Option<FontId> {
    match names.index_of_first(name) {
        Some(index) => Some(FontId((index + 1) as usize)),
        None => None,
    }
}

/// The place of `font`: 0 for the default font, and for an external one
/// the place of its name.
pub open spec fn font_place(names: Seq<Seq<char>>, font: Font) -> Option<FontId> {
    match font {
        Font::Default => Some(FontId(0)),
        Font::External { name, .. } => place_of(names, name@),
    }
}

/// The names of the external fonts that have a place, in the order in
/// which they got it.
#[derive(Debug)]
pub struct Pipeline {
    names: Vec<String>,
}

impl View for Pipeline {
    type V = Seq<Seq<char>>;

    closed spec fn view(&self) -> Seq<Seq<char>> {
        self.names@.map_values(|name: String| name@)
    }
}

impl Pipeline {
    /// Whether no name is registered twice, as is the case of a pipeline
    /// that only [`Pipeline::register`] has filled.
    pub open spec fn well_formed(&self) -> bool {
        self@.no_duplicates()
    }

    /// Creates a pipeline that knows the default font only.
    pub fn new() -> (pipeline: Pipeline)
        ensures
            pipeline.well_formed(),
            pipeline@.len() == 0,
    {
        Pipeline { names: Vec::new() }
    }

    /// Returns the place of the default font.
    pub fn default_font(&self) -> (id: FontId)
        ensures
            id == FontId(0),
    {
        FontId(0)
    }

    /// Returns the number of external fonts that have a place.
    pub fn external_fonts(&self) -> (count: usize)
        ensures
            count == self@.len(),
    {
        self.names.len()
    }

    /// Returns the place of the external font called `name`, if it has one.
    pub fn find_name(&self, name: &str) -> (found: Option<FontId>)
        ensures
            found == place_of(self@, name@),
            found is Some <==> self@.contains(name@),
    {
        let wanted = name.to_owned();
        let mut i: usize = 0;
        while i < self.names.len()
            invariant
                wanted@ == name@,
                i <= self.names@.len(),
                forall|k: int| 0 <= k < i ==> #[trigger] self@[k] != name@,
            decreases self.names@.len() - i,
        {
            if self.names[i] == wanted {
                proof {
                    assert(self@[i as int] == name@);
                    self@.index_of_first_ensures(name@);
                }
                return Some(FontId(i + 1));
            }
            i += 1;
        }
        proof {
            self@.index_of_first_ensures(name@);
        }
        None
    }

    /// Returns the place of `font`, if it has one: the default font always
    /// has, an external font once its name is registered.
    pub fn find_font(&self, font: Font) -> (found: Option<FontId>)
        ensures
            found == font_place(self@, font),
            font is Default ==> found == Some(FontId(0)),
    {
        match font {
            Font::Default => Some(FontId(0)),
            Font::External { name, bytes: _ } => self.find_name(name),
        }
    }

    /// Gives the external font called `name` a place and returns it. A name
    /// that has a place keeps it, and nothing changes; a new name gets the
    /// place behind all others. No other font changes its place.
    pub fn register(&mut self, name: &str) -> (id: FontId)
        ensures
            place_of(final(self)@, name@) == Some(id),
            old(self)@.contains(name@) ==> final(self)@ == old(self)@,
            !old(self)@.contains(name@) ==> final(self)@ == old(self)@.push(name@) && id == FontId(
                (old(self)@.len() + 1) as usize,
            ),
            forall|other: Seq<char>|
                old(self)@.contains(other) ==> #[trigger] place_of(final(self)@, other) == place_of(
                    old(self)@,
                    other,
                ),
            old(self).well_formed() ==> final(self).well_formed(),
    {
        match self.find_name(name) {
            Some(id) => id,
            None => {
                self.names.push(name.to_owned());
                let count = self.names.len();
                proof {
                    assert(self@ =~= old(self)@.push(name@));
                    lemma_new_name_goes_last(old(self)@, name@);
                }
                FontId(count)
            },
        }
    }
}

/// A name registered behind names that it is not among gets the place
/// behind them, and they keep theirs; where no name was registered twice,
/// none is then.
pub proof fn lemma_new_name_goes_last(names: Seq<Seq<char>>, name: Seq<char>)
    requires
        !names.contains(name),
    ensures
        place_of(names.push(name), name) == Some(FontId((names.len() + 1) as usize)),
        forall|other: Seq<char>|
            names.contains(other) ==> #[trigger] place_of(names.push(name), other) == place_of(
                names,
                other,
            ),
        names.no_duplicates() ==> names.push(name).no_duplicates(),
{
    let longer = names.push(name);
    assert(longer[names.len() as int] == name);
    longer.index_of_first_ensures(name);
    assert(longer.index_of_first(name) == Some(names.len() as int)) by {
        let first = longer.index_of_first(name)->0;
        if first < names.len() {
            assert(names[first] == longer[first]);
            assert(names.contains(name));
        }
    }
    assert forall|other: Seq<char>| names.contains(other) implies #[trigger] place_of(
        longer,
        other,
    ) == place_of(names, other) by {
        names.index_of_first_ensures(other);
        longer.index_of_first_ensures(other);
        let before = names.index_of_first(other)->0;
        assert(longer[before] == other);
        let after = longer.index_of_first(other)->0;
        if after < before {
            assert(names[after] == longer[after]);
        }
    }
    if names.no_duplicates() {
        assert forall|i: int, j: int|
            0 <= i < longer.len() && 0 <= j < longer.len() && i != j implies longer[i]
            != longer[j] by {
            if i < names.len() {
                assert(names[i] == longer[i]);
            }
            if j < names.len() {
                assert(names[j] == longer[j]);
            }
        }
    }
}

/// A name that has just been registered is found at the place it was given,
/// whatever is registered after it.
pub proof fn lemma_first_registration_wins(names: Seq<Seq<char>>, name: Seq<char>, later: Seq<char>)
    requires
        names.contains(name),
    ensures
        place_of(names.push(later), name) == place_of(names, name),
{
    let longer = names.push(later);
    names.index_of_first_ensures(name);
    longer.index_of_first_ensures(name);
    let before = names.index_of_first(name)->0;
    assert(longer[before] == name);
    let after = longer.index_of_first(name)->0;
    if after < before {
        assert(names[after] == longer[after]);
    }
}

} // verus!
