//! The gag modes and sets of them.

use vstd::prelude::*;
use vstd::string::*;
use crate::text::{eq_ignore_case, eq_ignore_ascii_case};

verus! {

/// The name of a gag mode: which rewriting a gag applies, and which bucket of
/// a subject's consent it falls under.
#[derive(Debug, Clone, Copy, PartialEq, Eq, Hash, Structural)]
pub enum GagModeName {
    /// A gag.
    Gag,
    /// Sounds like [`Self::Gag`].
    Sock,
    /// Sounds like a dog.
    Dog,
    /// Sounds like [`Self::Dog`].
    Puppy,
    /// Sounds like a cow.
    Cow,
    /// Sounds like a fox.
    Fox,
    /// Sounds like a cat.
    Cat,
    /// Sounds like a seal.
    Seal,
    /// Sounds like a bee.
    Bee,
}

impl Default for GagModeName {
    /// The default mode is [`GagModeName::Gag`].
    fn default() -> (r: Self)
        ensures
            r == GagModeName::Gag,
    {
        GagModeName::Gag
    }
}

/// The error of parsing a text that names no gag mode.
#[derive(Debug, Clone, Copy, PartialEq, Eq, Structural)]
pub struct UnknownGagModeName;

impl UnknownGagModeName {
    /// What went wrong, in words.
    pub open spec fn spec_message(self) -> Seq<char> {
        "Unknwon GagModeName"@
    }

    /// What went wrong, in words.
    pub fn to_string(&self) -> (r: String)
        ensures
            r@ == self.spec_message(),
    {
        String::from_str("Unknwon GagModeName")
    }
}

impl GagModeName {
    /// The number of gag modes.
    pub const COUNT: usize = 9;

    /// The place of the mode in the order in which the modes are declared.
    pub open spec fn spec_index(self) -> int {
        match self {
            GagModeName::Gag => 0,
            GagModeName::Sock => 1,
            GagModeName::Dog => 2,
            GagModeName::Puppy => 3,
            GagModeName::Cow => 4,
            GagModeName::Fox => 5,
            GagModeName::Cat => 6,
            GagModeName::Seal => 7,
            GagModeName::Bee => 8,
        }
    }

    /// The mode at a place in the order of declaration, if there is one.
    pub open spec fn spec_from_index(index: int) -> Option<GagModeName> {
        if index == 0 {
            Some(GagModeName::Gag)
        } else if index == 1 {
            Some(GagModeName::Sock)
        } else if index == 2 {
            Some(GagModeName::Dog)
        } else if index == 3 {
            Some(GagModeName::Puppy)
        } else if index == 4 {
            Some(GagModeName::Cow)
        } else if index == 5 {
            Some(GagModeName::Fox)
        } else if index == 6 {
            Some(GagModeName::Cat)
        } else if index == 7 {
            Some(GagModeName::Seal)
        } else if index == 8 {
            Some(GagModeName::Bee)
        } else {
            None
        }
    }

    /// The name of the mode, as users write it.
    pub open spec fn spec_name(self) -> Seq<char> {
        match self {
            GagModeName::Gag => "Gag"@,
            GagModeName::Sock => "Sock"@,
            GagModeName::Dog => "Dog"@,
            GagModeName::Puppy => "Puppy"@,
            GagModeName::Cow => "Cow"@,
            GagModeName::Fox => "Fox"@,
            GagModeName::Cat => "Cat"@,
            GagModeName::Seal => "Seal"@,
            GagModeName::Bee => "Bee"@,
        }
    }

    /// The mode that a text names: the first, in the order of declaration,
    /// whose name equals the text up to the case of ASCII letters.
    pub open spec fn spec_from_name(name: Seq<char>) -> Option<GagModeName> {
        if eq_ignore_case(name, GagModeName::Gag.spec_name()) {
            Some(GagModeName::Gag)
        } else if eq_ignore_case(name, GagModeName::Sock.spec_name()) {
            Some(GagModeName::Sock)
        } else if eq_ignore_case(name, GagModeName::Dog.spec_name()) {
            Some(GagModeName::Dog)
        } else if eq_ignore_case(name, GagModeName::Puppy.spec_name()) {
            Some(GagModeName::Puppy)
        } else if eq_ignore_case(name, GagModeName::Cow.spec_name()) {
            Some(GagModeName::Cow)
        } else if eq_ignore_case(name, GagModeName::Fox.spec_name()) {
            Some(GagModeName::Fox)
        } else if eq_ignore_case(name, GagModeName::Cat.spec_name()) {
            Some(GagModeName::Cat)
        } else if eq_ignore_case(name, GagModeName::Seal.spec_name()) {
            Some(GagModeName::Seal)
        } else if eq_ignore_case(name, GagModeName::Bee.spec_name()) {
            Some(GagModeName::Bee)
        } else {
            None
        }
    }

    /// The icon of the mode.
    pub open spec fn spec_icon(self) -> Seq<char> {
        match self {
            GagModeName::Gag => "\u{1F534}"@,
            GagModeName::Sock => "\u{1F9E6}"@,
            GagModeName::Dog => "\u{1F436}"@,
            GagModeName::Puppy => "\u{1F436}"@,
            GagModeName::Cow => "\u{1F42E}"@,
            GagModeName::Fox => "\u{1F98A}"@,
            GagModeName::Cat => "\u{1F431}"@,
            GagModeName::Seal => "\u{1F9AD}"@,
            GagModeName::Bee => "\u{1F41D}"@,
        }
    }

    /// The set of all gag modes.
    pub fn all() -> (r: GagModeSet)
        ensures
            forall|mode: GagModeName| r@.contains(mode),
            r@ == Set::<GagModeName>::full(),
    {
        let r = GagModeSet {
            gag: true,
            sock: true,
            dog: true,
            puppy: true,
            cow: true,
            fox: true,
            cat: true,
            seal: true,
            bee: true,
        };
        assert forall|mode: GagModeName| r@.contains(mode) by {
            assert(r.holds(mode));
        }
        assert(r@ =~= Set::<GagModeName>::full());
        r
    }

    /// The place of the mode in the order of declaration.
    pub fn index(&self) -> (r: usize)
        ensures
            r == self.spec_index(),
            r < GagModeName::COUNT,
    {
        match self {
            GagModeName::Gag => 0,
            GagModeName::Sock => 1,
            GagModeName::Dog => 2,
            GagModeName::Puppy => 3,
            GagModeName::Cow => 4,
            GagModeName::Fox => 5,
            GagModeName::Cat => 6,
            GagModeName::Seal => 7,
            GagModeName::Bee => 8,
        }
    }

    /// The mode at a place in the order of declaration; `None` from
    /// [`GagModeName::COUNT`] on.
    pub fn from_index(index: usize) -> (r: Option<Self>)
        ensures
            r == GagModeName::spec_from_index(index as int),
            r is Some <==> index < GagModeName::COUNT,
            r matches Some(mode) ==> mode.spec_index() == index,
    {
        if index == 0 {
            Some(GagModeName::Gag)
        } else if index == 1 {
            Some(GagModeName::Sock)
        } else if index == 2 {
            Some(GagModeName::Dog)
        } else if index == 3 {
            Some(GagModeName::Puppy)
        } else if index == 4 {
            Some(GagModeName::Cow)
        } else if index == 5 {
            Some(GagModeName::Fox)
        } else if index == 6 {
            Some(GagModeName::Cat)
        } else if index == 7 {
            Some(GagModeName::Seal)
        } else if index == 8 {
            Some(GagModeName::Bee)
        } else {
            None
        }
    }

    /// The name of the mode, as users write it.
    pub fn name(&self) -> (r: &'static str)
        ensures
            r@ == self.spec_name(),
    {
        match self {
            GagModeName::Gag => "Gag",
            GagModeName::Sock => "Sock",
            GagModeName::Dog => "Dog",
            GagModeName::Puppy => "Puppy",
            GagModeName::Cow => "Cow",
            GagModeName::Fox => "Fox",
            GagModeName::Cat => "Cat",
            GagModeName::Seal => "Seal",
            GagModeName::Bee => "Bee",
        }
    }

    /// The name of the mode as a `String`.
    pub fn to_string(&self) -> (r: String)
        ensures
            r@ == self.spec_name(),
    {
        String::from_str(self.name())
    }

    /// The mode that `name` names, whatever the case of its ASCII letters;
    /// `None` when it names none.
    pub fn from_name(name: &str) -> (r: Option<Self>)
        ensures
            r == GagModeName::spec_from_name(name@),
    {
        let mut i: usize = 0;
        while i < GagModeName::COUNT
            invariant
                i <= GagModeName::COUNT,
                forall|j: int|
                    0 <= j < i ==> !eq_ignore_case(
                        name@,
                        (#[trigger] GagModeName::spec_from_index(j))->0.spec_name(),
                    ),
            decreases GagModeName::COUNT - i,
        {
            match GagModeName::from_index(i) {
                Some(mode) => {
                    if eq_ignore_ascii_case(name, mode.name()) {
                        assert(GagModeName::spec_from_index(0) == Some(GagModeName::Gag));
                        assert(GagModeName::spec_from_index(1) == Some(GagModeName::Sock));
                        assert(GagModeName::spec_from_index(2) == Some(GagModeName::Dog));
                        assert(GagModeName::spec_from_index(3) == Some(GagModeName::Puppy));
                        assert(GagModeName::spec_from_index(4) == Some(GagModeName::Cow));
                        assert(GagModeName::spec_from_index(5) == Some(GagModeName::Fox));
                        assert(GagModeName::spec_from_index(6) == Some(GagModeName::Cat));
                        assert(GagModeName::spec_from_index(7) == Some(GagModeName::Seal));
                        return Some(mode);
                    }
                },
                None => {},
            }
            i = i + 1;
        }
        assert(GagModeName::spec_from_index(0) == Some(GagModeName::Gag));
        assert(GagModeName::spec_from_index(1) == Some(GagModeName::Sock));
        assert(GagModeName::spec_from_index(2) == Some(GagModeName::Dog));
        assert(GagModeName::spec_from_index(3) == Some(GagModeName::Puppy));
        assert(GagModeName::spec_from_index(4) == Some(GagModeName::Cow));
        assert(GagModeName::spec_from_index(5) == Some(GagModeName::Fox));
        assert(GagModeName::spec_from_index(6) == Some(GagModeName::Cat));
        assert(GagModeName::spec_from_index(7) == Some(GagModeName::Seal));
        assert(GagModeName::spec_from_index(8) == Some(GagModeName::Bee));
        None
    }

    /// The icon of the mode, an emoji.
    pub fn icon(&self) -> (r: &'static str)
        ensures
            r@ == self.spec_icon(),
    {
        match self {
            GagModeName::Gag => "\u{1F534}",
            GagModeName::Sock => "\u{1F9E6}",
            GagModeName::Dog => "\u{1F436}",
            GagModeName::Puppy => "\u{1F436}",
            GagModeName::Cow => "\u{1F42E}",
            GagModeName::Fox => "\u{1F98A}",
            GagModeName::Cat => "\u{1F431}",
            GagModeName::Seal => "\u{1F9AD}",
            GagModeName::Bee => "\u{1F41D}",
        }
    }
}

impl std::str::FromStr for GagModeName {
    type Err = UnknownGagModeName;

    /// Parses as [`GagModeName::from_name`] does.
    fn from_str(s: &str) -> (r: Result<Self, UnknownGagModeName>)
        ensures
            r == match GagModeName::spec_from_name(s@) {
                Some(mode) => Ok::<GagModeName, UnknownGagModeName>(mode),
                None => Err::<GagModeName, UnknownGagModeName>(UnknownGagModeName),
            },
    {
        match GagModeName::from_name(s) {
            Some(mode) => Ok(mode),
            None => Err(UnknownGagModeName),
        }
    }
}

/// A set of gag modes, one flag per mode.
///
/// Two values are equal exactly when they hold the same modes.
#[derive(Debug, Clone, Copy, PartialEq, Eq, Hash, Structural)]
pub struct GagModeSet {
    pub gag: bool,
    pub sock: bool,
    pub dog: bool,
    pub puppy: bool,
    pub cow: bool,
    pub fox: bool,
    pub cat: bool,
    pub seal: bool,
    pub bee: bool,
}

impl View for GagModeSet {
    type V = Set<GagModeName>;

    open spec fn view(&self) -> Set<GagModeName> {
        Set::new(|mode: GagModeName| self.holds(mode))
    }
}

impl GagModeSet {
    /// Whether `mode` is in the set.
    pub open spec fn holds(self, mode: GagModeName) -> bool {
        match mode {
            GagModeName::Gag => self.gag,
            GagModeName::Sock => self.sock,
            GagModeName::Dog => self.dog,
            GagModeName::Puppy => self.puppy,
            GagModeName::Cow => self.cow,
            GagModeName::Fox => self.fox,
            GagModeName::Cat => self.cat,
            GagModeName::Seal => self.seal,
            GagModeName::Bee => self.bee,
        }
    }

    /// The value that holds exactly the modes of `modes`.
    pub open spec fn of(modes: Set<GagModeName>) -> GagModeSet {
        GagModeSet {
            gag: modes.contains(GagModeName::Gag),
            sock: modes.contains(GagModeName::Sock),
            dog: modes.contains(GagModeName::Dog),
            puppy: modes.contains(GagModeName::Puppy),
            cow: modes.contains(GagModeName::Cow),
            fox: modes.contains(GagModeName::Fox),
            cat: modes.contains(GagModeName::Cat),
            seal: modes.contains(GagModeName::Seal),
            bee: modes.contains(GagModeName::Bee),
        }
    }

    /// The empty set.
    pub fn new() -> (r: Self)
        ensures
            r@ == Set::<GagModeName>::empty(),
            r == GagModeSet::of(Set::empty()),
    {
        GagModeSet {
            gag: false,
            sock: false,
            dog: false,
            puppy: false,
            cow: false,
            fox: false,
            cat: false,
            seal: false,
            bee: false,
        }
    }

    /// Whether `mode` is in the set.
    pub fn contains(&self, mode: GagModeName) -> (r: bool)
        ensures
            r == self@.contains(mode),
    {
        match mode {
            GagModeName::Gag => self.gag,
            GagModeName::Sock => self.sock,
            GagModeName::Dog => self.dog,
            GagModeName::Puppy => self.puppy,
            GagModeName::Cow => self.cow,
            GagModeName::Fox => self.fox,
            GagModeName::Cat => self.cat,
            GagModeName::Seal => self.seal,
            GagModeName::Bee => self.bee,
        }
    }

    /// Adds `mode`; returns whether it was new.
    pub fn insert(&mut self, mode: GagModeName) -> (r: bool)
        ensures
            final(self)@ == old(self)@.insert(mode),
            r == !old(self)@.contains(mode),
    {
        let fresh = !self.contains(mode);
        match mode {
            GagModeName::Gag => { self.gag = true; },
            GagModeName::Sock => { self.sock = true; },
            GagModeName::Dog => { self.dog = true; },
            GagModeName::Puppy => { self.puppy = true; },
            GagModeName::Cow => { self.cow = true; },
            GagModeName::Fox => { self.fox = true; },
            GagModeName::Cat => { self.cat = true; },
            GagModeName::Seal => { self.seal = true; },
            GagModeName::Bee => { self.bee = true; },
        }
        fresh
    }

    /// Takes `mode` out; returns whether it was in the set.
    pub fn remove(&mut self, mode: GagModeName) -> (r: bool)
        ensures
            final(self)@ == old(self)@.remove(mode),
            r == old(self)@.contains(mode),
    {
        let present = self.contains(mode);
        match mode {
            GagModeName::Gag => { self.gag = false; },
            GagModeName::Sock => { self.sock = false; },
            GagModeName::Dog => { self.dog = false; },
            GagModeName::Puppy => { self.puppy = false; },
            GagModeName::Cow => { self.cow = false; },
            GagModeName::Fox => { self.fox = false; },
            GagModeName::Cat => { self.cat = false; },
            GagModeName::Seal => { self.seal = false; },
            GagModeName::Bee => { self.bee = false; },
        }
        present
    }

    /// The modes that are in `self` or in `other`.
    pub fn union(&self, other: &GagModeSet) -> (r: GagModeSet)
        ensures
            r@ == self@.union(other@),
            r == GagModeSet::of(self@.union(other@)),
    {
        let r = GagModeSet {
            gag: self.gag || other.gag,
            sock: self.sock || other.sock,
            dog: self.dog || other.dog,
            puppy: self.puppy || other.puppy,
            cow: self.cow || other.cow,
            fox: self.fox || other.fox,
            cat: self.cat || other.cat,
            seal: self.seal || other.seal,
            bee: self.bee || other.bee,
        };
        proof {
            lemma_holds_all(*self);
            lemma_holds_all(*other);
            assert(r@ =~= self@.union(other@));
        }
        r
    }

    /// The modes that are in `self` and not in `other`.
    pub fn difference(&self, other: &GagModeSet) -> (r: GagModeSet)
        ensures
            r@ == self@.difference(other@),
            r == GagModeSet::of(self@.difference(other@)),
    {
        let r = GagModeSet {
            gag: self.gag && !other.gag,
            sock: self.sock && !other.sock,
            dog: self.dog && !other.dog,
            puppy: self.puppy && !other.puppy,
            cow: self.cow && !other.cow,
            fox: self.fox && !other.fox,
            cat: self.cat && !other.cat,
            seal: self.seal && !other.seal,
            bee: self.bee && !other.bee,
        };
        proof {
            lemma_holds_all(*self);
            lemma_holds_all(*other);
            assert(r@ =~= self@.difference(other@));
        }
        r
    }

    /// Whether the set holds no mode.
    pub fn is_empty(&self) -> (r: bool)
        ensures
            r == (self@ == Set::<GagModeName>::empty()),
    {
        let r = !(self.gag || self.sock || self.dog || self.puppy || self.cow || self.fox
            || self.cat || self.seal || self.bee);
        proof {
            lemma_holds_all(*self);
            if r {
                assert(self@ =~= Set::<GagModeName>::empty());
            }
        }
        r
    }

    /// The modes of the set, in the order in which the modes are declared.
    pub fn to_vec(&self) -> (r: Vec<GagModeName>)
        ensures
            forall|mode: GagModeName| r@.contains(mode) <==> self@.contains(mode),
            forall|i: int, j: int|
                0 <= i < j < r@.len() ==> (#[trigger] r@[i]).spec_index() < (
                #[trigger] r@[j]).spec_index(),
    {
        let mut r: Vec<GagModeName> = Vec::new();
        let mut i: usize = 0;
        while i < GagModeName::COUNT
            invariant
                i <= GagModeName::COUNT,
                forall|k: int| 0 <= k < r@.len() ==> (#[trigger] r@[k]).spec_index() < i,
                forall|k: int| 0 <= k < r@.len() ==> self@.contains(#[trigger] r@[k]),
                forall|mode: GagModeName|
                    self@.contains(mode) && mode.spec_index() < i ==> r@.contains(mode),
                forall|k: int, j: int|
                    0 <= k < j < r@.len() ==> (#[trigger] r@[k]).spec_index() < (
                    #[trigger] r@[j]).spec_index(),
            decreases GagModeName::COUNT - i,
        {
            match GagModeName::from_index(i) {
                Some(mode) => {
                    if self.contains(mode) {
                        let ghost before = r@;
                        r.push(mode);
                        assert(r@[before.len() as int] == mode);
                        assert forall|m: GagModeName|
                            self@.contains(m) && m.spec_index() < i + 1 implies r@.contains(
                            m,
                        ) by {
                            if m.spec_index() < i {
                                let k = choose|k: int| 0 <= k < before.len() && before[k] == m;
                                assert(r@[k] == m);
                            } else {
                                assert(m == mode);
                            }
                        }
                    } else {
                        assert forall|m: GagModeName|
                            self@.contains(m) && m.spec_index() < i + 1 implies r@.contains(
                            m,
                        ) by {
                            if m.spec_index() == i {
                                assert(m == mode);
                            }
                        }
                    }
                },
                None => {},
            }
            i = i + 1;
        }
        r
    }
}

/// Membership in the view is the flag of the mode.
pub proof fn lemma_holds_all(a: GagModeSet)
    ensures
        forall|mode: GagModeName| a@.contains(mode) == a.holds(mode),
        a@.contains(GagModeName::Gag) == a.gag,
        a@.contains(GagModeName::Sock) == a.sock,
        a@.contains(GagModeName::Dog) == a.dog,
        a@.contains(GagModeName::Puppy) == a.puppy,
        a@.contains(GagModeName::Cow) == a.cow,
        a@.contains(GagModeName::Fox) == a.fox,
        a@.contains(GagModeName::Cat) == a.cat,
        a@.contains(GagModeName::Seal) == a.seal,
        a@.contains(GagModeName::Bee) == a.bee,
        GagModeSet::of(a@) == a,
{
    assert(a.holds(GagModeName::Gag) == a.gag);
    assert(a.holds(GagModeName::Sock) == a.sock);
    assert(a.holds(GagModeName::Dog) == a.dog);
    assert(a.holds(GagModeName::Puppy) == a.puppy);
    assert(a.holds(GagModeName::Cow) == a.cow);
    assert(a.holds(GagModeName::Fox) == a.fox);
    assert(a.holds(GagModeName::Cat) == a.cat);
    assert(a.holds(GagModeName::Seal) == a.seal);
    assert(a.holds(GagModeName::Bee) == a.bee);
}

/// The value made of a set of modes holds exactly that set.
pub proof fn lemma_of_view(modes: Set<GagModeName>)
    ensures
        GagModeSet::of(modes)@ == modes,
{
    let a = GagModeSet::of(modes);
    assert forall|mode: GagModeName| a@.contains(mode) == modes.contains(mode) by {
        assert(a@.contains(mode) == a.holds(mode));
    }
    assert(a@ =~= modes);
}

/// A set value is determined by the modes it holds.
pub proof fn lemma_mode_set_canonical(a: GagModeSet, b: GagModeSet)
    requires
        a@ == b@,
    ensures
        a == b,
{
    lemma_holds_all(a);
    lemma_holds_all(b);
}

} // verus!
