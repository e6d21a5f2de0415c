use vstd::prelude::*;

verus! {

/// A recognised modifier key, left and right keys taken together.
#[derive(Clone, Copy, PartialEq, Eq, Structural)]
pub enum Modifier {
    Shift,
    Control,
    Alt,
    Meta,
}

pub open spec fn modifier_name(m: Modifier) -> Seq<char> {
    match m {
        Modifier::Shift => "Shift"@,
        Modifier::Control => "Control"@,
        Modifier::Alt => "Alt"@,
        Modifier::Meta => "Meta"@,
    }
}

/// The modifiers that are currently held down.
#[derive(Clone, Copy, PartialEq, Eq, Structural)]
pub struct ModifierSet {
    pub shift: bool,
    pub control: bool,
    pub alt: bool,
    pub meta: bool,
}

impl ModifierSet {
    pub open spec fn contains(self, m: Modifier) -> bool {
        match m {
            Modifier::Shift => self.shift,
            Modifier::Control => self.control,
            Modifier::Alt => self.alt,
            Modifier::Meta => self.meta,
        }
    }

    pub open spec fn view(self) -> Set<Modifier> {
        Set::new(|m: Modifier| self.contains(m))
    }

    pub fn new() -> (r: Self)
        ensures
            r@ == Set::<Modifier>::empty(),
    {
        let r = ModifierSet { shift: false, control: false, alt: false, meta: false };
        assert(r@ =~= Set::<Modifier>::empty());
        r
    }
}

/// The names of the held modifiers, in the order Shift, Control, Alt, Meta.
pub open spec fn active_names(s: ModifierSet) -> Seq<Seq<char>> {
    (if s.shift { seq!["Shift"@] } else { Seq::empty() })
        + (if s.control { seq!["Control"@] } else { Seq::empty() })
        + (if s.alt { seq!["Alt"@] } else { Seq::empty() })
        + (if s.meta { seq!["Meta"@] } else { Seq::empty() })
}

/// Records a key going down (`pressed`) or up. A key that is no modifier
/// (`None`) leaves the set as it is.
pub fn update_modifiers(modifiers: &mut ModifierSet, modifier: Option<Modifier>, pressed: bool)
    ensures
        final(modifiers)@ == (match modifier {
            Some(m) => if pressed {
                old(modifiers)@.insert(m)
            } else {
                old(modifiers)@.remove(m)
            },
            None => old(modifiers)@,
        }),
{
    match modifier {
        Some(Modifier::Shift) => modifiers.shift = pressed,
        Some(Modifier::Control) => modifiers.control = pressed,
        Some(Modifier::Alt) => modifiers.alt = pressed,
        Some(Modifier::Meta) => modifiers.meta = pressed,
        None => {},
    }
    proof {
        match modifier {
            Some(m) => if pressed {
                assert(final(modifiers)@ =~= old(modifiers)@.insert(m));
            } else {
                assert(final(modifiers)@ =~= old(modifiers)@.remove(m));
            },
            None => {
                assert(final(modifiers)@ =~= old(modifiers)@);
            },
        }
    }
}

/// The names of the held modifiers, each once.
pub fn get_active_modifiers(modifiers: &ModifierSet) -> (r: Vec<String>)
    ensures
        r@.len() == active_names(*modifiers).len(),
        forall|i: int| 0 <= i < r@.len() ==> #[trigger] r@[i]@ == active_names(*modifiers)[i],
{
    let mut r: Vec<String> = Vec::new();
    if modifiers.shift {
        r.push("Shift".to_string());
    }
    if modifiers.control {
        r.push("Control".to_string());
    }
    if modifiers.alt {
        r.push("Alt".to_string());
    }
    if modifiers.meta {
        r.push("Meta".to_string());
    }
    r
}

/// The names listed for a set of held modifiers are those of its members,
/// and each is listed once.
pub proof fn lemma_active_names_match_set(s: ModifierSet)
    ensures
        forall|m: Modifier| s@.contains(m) <==> active_names(s).contains(#[trigger] modifier_name(m)),
        active_names(s).no_duplicates(),
{
    reveal_strlit("Shift");
    reveal_strlit("Control");
    reveal_strlit("Alt");
    reveal_strlit("Meta");
    let names = active_names(s);
    let a: Seq<Seq<char>> = if s.shift { seq!["Shift"@] } else { Seq::empty() };
    let b: Seq<Seq<char>> = if s.control { seq!["Control"@] } else { Seq::empty() };
    let c: Seq<Seq<char>> = if s.alt { seq!["Alt"@] } else { Seq::empty() };
    let d: Seq<Seq<char>> = if s.meta { seq!["Meta"@] } else { Seq::empty() };
    assert(names == a + b + c + d);
    let la = a.len();
    let lb = b.len();
    let lc = c.len();
    assert forall|i: int| 0 <= i < names.len() implies {
        &&& i < la ==> #[trigger] names[i] == "Shift"@
        &&& la <= i < la + lb ==> names[i] == "Control"@
        &&& la + lb <= i < la + lb + lc ==> names[i] == "Alt"@
        &&& la + lb + lc <= i ==> names[i] == "Meta"@
    } by {
        assert((a + b + c + d)[i] == names[i]);
        assert((a + b + c)[i] == (a + b + c + d)[i] || la + lb + lc <= i);
        assert((a + b)[i] == (a + b + c)[i] || la + lb <= i);
    }
    // the four names differ in length, so no two positions hold the same one
    assert forall|i: int, j: int| 0 <= i < j < names.len() implies names[i] != names[j] by {
        assert(names[i].len() != names[j].len());
    }
    assert forall|m: Modifier| s@.contains(m) <==> names.contains(#[trigger] modifier_name(m)) by {
        if s@.contains(m) {
            match m {
                Modifier::Shift => { assert(names[0] == "Shift"@); },
                Modifier::Control => {
                    let k: int = if s.shift { 1 } else { 0 };
                    assert(names[k] == "Control"@);
                },
                Modifier::Alt => {
                    let k: int = (if s.shift { 1int } else { 0int }) + (if s.control { 1int } else { 0int });
                    assert(names[k] == "Alt"@);
                },
                Modifier::Meta => {
                    let k: int = (if s.shift { 1int } else { 0int }) + (if s.control { 1int } else { 0int })
                        + (if s.alt { 1int } else { 0int });
                    assert(names[k] == "Meta"@);
                },
            }
        } else if names.contains(modifier_name(m)) {
            let i = choose|i: int| 0 <= i < names.len() && names[i] == modifier_name(m);
            assert(names[i].len() == modifier_name(m).len());
        }
    }
}

} // verus!
