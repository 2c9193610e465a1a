//! The color-scheme data model: a mode tag and a mapping from semantic color
//! role names to six-digit hex color strings, fixed at construction time and
//! handed read-only to every module.

use vstd::prelude::*;

verus! {

/// The top-level theme variant.
#[derive(Clone, Copy, Debug, PartialEq, Eq, Structural)]
pub enum ThemeMode {
    Light,
    Dark,
}

impl ThemeMode {
    /// The lower-case token used on the command line, in persisted state and
    /// by the color generator.
    pub fn as_str(&self) -> (r: &'static str)
        ensures
            self is Light ==> r@ == "light"@,
            self is Dark ==> r@ == "dark"@,
    {
        match self {
            ThemeMode::Light => "light",
            ThemeMode::Dark => "dark",
        }
    }

    /// The capitalised name used when the configuration file is rendered.
    pub fn title_str(&self) -> (r: &'static str)
        ensures
            self is Light ==> r@ == "Light"@,
            self is Dark ==> r@ == "Dark"@,
    {
        match self {
            ThemeMode::Light => "Light",
            ThemeMode::Dark => "Dark",
        }
    }

    /// The other mode, for toggling without an explicit argument.
    pub fn toggled(&self) -> (r: ThemeMode)
        ensures
            self is Light ==> r is Dark,
            self is Dark ==> r is Light,
    {
        match self {
            ThemeMode::Light => ThemeMode::Dark,
            ThemeMode::Dark => ThemeMode::Light,
        }
    }
}

/// The lower-case token of a mode.
pub open spec fn spec_mode_name(mode: ThemeMode) -> Seq<char> {
    match mode {
        ThemeMode::Light => "light"@,
        ThemeMode::Dark => "dark"@,
    }
}

/// Value of the latest entry for key `k`, scanning a key/value sequence so
/// that a later entry overrides an earlier one with the same key.
pub open spec fn spec_lookup_last(
    es: Seq<(Seq<char>, Seq<char>)>,
    k: Seq<char>,
) -> Option<Seq<char>>
    decreases es.len(),
{
    if es.len() == 0 {
        None
    } else if es.last().0 == k {
        Some(es.last().1)
    } else {
        spec_lookup_last(es.drop_last(), k)
    }
}

/// No two entries share a key.
pub open spec fn unique_keys(es: Seq<(Seq<char>, Seq<char>)>) -> bool {
    forall|i: int, j: int| 0 <= i < j < es.len() ==> es[i].0 != es[j].0
}

/// An immutable-after-construction mapping from color role names to hex
/// color strings, plus the mode it was resolved for.
#[derive(Debug)]
pub struct ColorScheme {
    mode: ThemeMode,
    colors: Vec<(String, String)>,
}

impl ColorScheme {
    /// The role/color entries, in insertion order, as mathematical values.
    pub closed spec fn entries(self) -> Seq<(Seq<char>, Seq<char>)> {
        self.colors.deep_view()
    }

    /// No role name occurs twice.
    pub closed spec fn wf(self) -> bool {
        unique_keys(self.entries())
    }

    /// The mode this scheme was resolved for.
    pub closed spec fn spec_mode(self) -> ThemeMode {
        self.mode
    }

    /// The color assigned to role `k`, if any.
    pub open spec fn spec_get(self, k: Seq<char>) -> Option<Seq<char>> {
        spec_lookup_last(self.entries(), k)
    }

    /// A fresh scheme for `mode` with no colors assigned yet.
    pub fn new(mode: ThemeMode) -> (r: ColorScheme)
        ensures
            r.wf(),
            r.spec_mode() == mode,
            r.entries().len() == 0,
            forall|k: Seq<char>| r.spec_get(k) == None::<Seq<char>>,
    {
        let r = ColorScheme { mode, colors: Vec::new() };
        proof {
            assert(r.entries() =~= Seq::<(Seq<char>, Seq<char>)>::empty());
        }
        r
    }

    /// The mode tag.
    pub fn mode(&self) -> (r: ThemeMode)
        ensures
            r == self.spec_mode(),
    {
        self.mode
    }

    /// Number of roles that have a color.
    pub fn num_roles(&self) -> (r: usize)
        ensures
            r == self.entries().len(),
    {
        self.colors.len()
    }

    /// The role/color pair at position `i`, in insertion order.
    pub fn entry_at(&self, i: usize) -> (r: (&String, &String))
        requires
            i < self.entries().len(),
        ensures
            r.0@ == self.entries()[i as int].0,
            r.1@ == self.entries()[i as int].1,
            self.entries()[i as int] == (r.0@, r.1@),
    {
        let p = &self.colors[i];
        (&p.0, &p.1)
    }

    /// Look a role's color up.
    pub fn get<'a>(&'a self, key: &str) -> (r: Option<&'a String>)
        requires
            self.wf(),
        ensures
            match r {
                Some(v) => self.spec_get(key@) == Some(v@),
                None => self.spec_get(key@) == None::<Seq<char>>,
            },
    {
        let n: usize = self.colors.len();
        let mut i: usize = 0;
        proof {
            lemma_lookup_last_take_none(self.entries(), key@, 0);
        }
        while i < n
            invariant
                self.wf(),
                n == self.entries().len(),
                i <= n,
                spec_lookup_last(self.entries().take(i as int), key@) == None::<Seq<char>>,
            decreases n - i,
        {
            if crate::strutil::str_eq(self.colors[i].0.as_str(), key) {
                proof {
                    lemma_lookup_last_found(self.entries(), key@, i as int);
                }
                return Some(&self.colors[i].1);
            }
            proof {
                assert(self.entries().take(i + 1).drop_last() =~= self.entries().take(i as int));
                assert(self.entries().take(i + 1).last() == self.entries()[i as int]);
            }
            i = i + 1;
        }
        proof {
            assert(self.entries().take(n as int) =~= self.entries());
        }
        None
    }

    /// Assign a color to a role, replacing an earlier assignment of the same
    /// role and leaving every other role unchanged.
    pub fn set(&mut self, key: String, value: String)
        requires
            old(self).wf(),
        ensures
            final(self).wf(),
            final(self).spec_mode() == old(self).spec_mode(),
            final(self).spec_get(key@) == Some(value@),
            forall|k: Seq<char>| k != key@ ==> final(self).spec_get(k) == old(self).spec_get(k),
    {
        let ghost olde = self.entries();
        let n: usize = self.colors.len();
        let mut i: usize = 0;
        while i < n
            invariant
                n == self.colors.len(),
                i <= n,
                self.wf(),
                self.entries() == olde,
                self.mode == old(self).mode,
                self.colors == old(self).colors,
                forall|j: int| 0 <= j < i ==> olde[j].0 != key@,
            decreases n - i,
        {
            if crate::strutil::str_eq(self.colors[i].0.as_str(), key.as_str()) {
                self.colors[i].1 = value;
                proof {
                    let newe = self.entries();
                    assert(newe.len() == olde.len());
                    assert(forall|j: int|
                        0 <= j < newe.len() && j != i ==> newe[j] == olde[j]);
                    assert(newe[i as int].0 == key@ && newe[i as int].1 == value@);
                    assert(forall|j: int| 0 <= j < newe.len() ==> newe[j].0 == olde[j].0);
                    assert(unique_keys(newe));
                    lemma_lookup_last_unique(newe, olde, i as int, key@, value@);
                }
                return;
            }
            i = i + 1;
        }
        self.colors.push((key, value));
        proof {
            let newe = self.entries();
            assert(newe.drop_last() =~= olde);
            assert(newe.last().0 == key@ && newe.last().1 == value@);
            assert(forall|j: int| 0 <= j < olde.len() ==> newe[j] == olde[j]);
            assert(forall|j: int| 0 <= j < olde.len() ==> olde[j].0 != key@);
            assert(unique_keys(newe));
            assert forall|k: Seq<char>| k != key@ implies spec_lookup_last(newe, k)
                == spec_lookup_last(olde, k) by {}
        }
    }
}

/// The color for role `k`, or the given default when the role is unset: a
/// missing role means "use the adapter-local default", never an error.
pub open spec fn spec_get_or(s: ColorScheme, k: Seq<char>, d: Seq<char>) -> Seq<char> {
    match s.spec_get(k) {
        Some(v) => v,
        None => d,
    }
}

/// One `@define-color` line per role, in insertion order.
pub open spec fn spec_gtk_css(es: Seq<(Seq<char>, Seq<char>)>) -> Seq<char>
    decreases es.len(),
{
    if es.len() == 0 {
        Seq::empty()
    } else {
        spec_gtk_css(es.drop_last()) + "@define-color "@ + es.last().0 + seq![' '] + es.last().1
            + ";\n"@
    }
}

impl ColorScheme {
    /// The color for a role, or the adapter's default when the role is
    /// unset.
    pub fn get_or(&self, key: &str, default: &str) -> (r: String)
        requires
            self.wf(),
        ensures
            r@ == spec_get_or(*self, key@, default@),
    {
        match self.get(key) {
            Some(v) => v.clone(),
            None => String::from_str(default),
        }
    }

    /// The role/color pairs, cloned, in insertion order.
    pub fn entries_vec(&self) -> (r: Vec<(String, String)>)
        ensures
            r.deep_view() == self.entries(),
    {
        let n: usize = self.num_roles();
        let mut out: Vec<(String, String)> = Vec::new();
        let mut i: usize = 0;
        proof {
            assert(out.deep_view() =~= self.entries().take(0));
        }
        while i < n
            invariant
                n == self.entries().len(),
                i <= n,
                out.deep_view() == self.entries().take(i as int),
            decreases n - i,
        {
            let (k, v) = self.entry_at(i);
            out.push((k.clone(), v.clone()));
            proof {
                assert(self.entries().take(i + 1) =~= self.entries().take(i as int).push(
                    self.entries()[i as int],
                ));
                assert(out.deep_view() =~= self.entries().take(i + 1));
            }
            i = i + 1;
        }
        proof {
            assert(self.entries().take(n as int) =~= self.entries());
        }
        out
    }

    /// Render the scheme as GTK CSS: one `@define-color` line per role.
    pub fn to_gtk_css(&self) -> (r: String)
        ensures
            r@ == spec_gtk_css(self.entries()),
    {
        let n: usize = self.num_roles();
        let mut out = String::new();
        let mut i: usize = 0;
        proof {
            assert(self.entries().take(0) =~= Seq::<(Seq<char>, Seq<char>)>::empty());
        }
        while i < n
            invariant
                n == self.entries().len(),
                i <= n,
                out@ == spec_gtk_css(self.entries().take(i as int)),
            decreases n - i,
        {
            let (k, v) = self.entry_at(i);
            out.append("@define-color ");
            out.append(k.as_str());
            out.append(" ");
            out.append(v.as_str());
            out.append(";\n");
            proof {
                let es = self.entries();
                assert(es.take(i + 1).drop_last() =~= es.take(i as int));
                assert(es.take(i + 1).last() == es[i as int]);
                assert(" "@ =~= seq![' ']) by {
                    reveal_strlit(" ");
                }
                assert(out@ =~= spec_gtk_css(es.take(i + 1)));
            }
            i = i + 1;
        }
        proof {
            assert(self.entries().take(n as int) =~= self.entries());
        }
        out
    }
}

/// When no entry of the first `upto` positions has key `k`, the scan of that
/// prefix yields nothing.
pub proof fn lemma_lookup_last_take_none(
    es: Seq<(Seq<char>, Seq<char>)>,
    k: Seq<char>,
    upto: int,
)
    requires
        0 <= upto <= es.len(),
        forall|j: int| 0 <= j < upto ==> es[j].0 != k,
    ensures
        spec_lookup_last(es.take(upto), k) == None::<Seq<char>>,
    decreases upto,
{
    if upto > 0 {
        assert(es.take(upto).last() == es[upto - 1]);
        assert(es.take(upto).drop_last() =~= es.take(upto - 1));
        lemma_lookup_last_take_none(es, k, upto - 1);
    } else {
        assert(es.take(0) =~= Seq::<(Seq<char>, Seq<char>)>::empty());
    }
}

/// A scan for `k` yields entry `i`'s value when that entry has key `k` and
/// no later entry does.
pub proof fn lemma_lookup_last_at(es: Seq<(Seq<char>, Seq<char>)>, k: Seq<char>, i: int)
    requires
        0 <= i < es.len(),
        es[i].0 == k,
        forall|j: int| i < j < es.len() ==> es[j].0 != k,
    ensures
        spec_lookup_last(es, k) == Some(es[i].1),
    decreases es.len(),
{
    if es.len() > 0 {
        if es.last().0 == k {
            assert(i == es.len() - 1);
        } else {
            assert(i < es.len() - 1);
            assert(es.drop_last()[i] == es[i]);
            lemma_lookup_last_at(es.drop_last(), k, i);
        }
    }
}

/// Under unique keys, a scan for the key of entry `i` yields that entry's
/// value.
pub proof fn lemma_lookup_last_found(es: Seq<(Seq<char>, Seq<char>)>, k: Seq<char>, i: int)
    requires
        unique_keys(es),
        0 <= i < es.len(),
        es[i].0 == k,
    ensures
        spec_lookup_last(es, k) == Some(es[i].1),
    decreases es.len(),
{
    if es.len() > 0 {
        if es.last().0 == k {
            assert(i == es.len() - 1);
        } else {
            assert(i < es.len() - 1);
            assert(es.drop_last()[i] == es[i]);
            lemma_lookup_last_found(es.drop_last(), k, i);
        }
    }
}

/// Replacing the value at position `i` (whose key is `key`) changes the scan
/// result for `key` to the new value and for no other key.
proof fn lemma_lookup_last_unique(
    newe: Seq<(Seq<char>, Seq<char>)>,
    olde: Seq<(Seq<char>, Seq<char>)>,
    i: int,
    key: Seq<char>,
    value: Seq<char>,
)
    requires
        newe.len() == olde.len(),
        0 <= i < newe.len(),
        forall|j: int| 0 <= j < newe.len() && j != i ==> newe[j] == olde[j],
        newe[i].0 == key,
        olde[i].0 == key,
        newe[i].1 == value,
        unique_keys(olde),
        unique_keys(newe),
    ensures
        spec_lookup_last(newe, key) == Some(value),
        forall|k: Seq<char>| k != key ==> spec_lookup_last(newe, k) == spec_lookup_last(olde, k),
    decreases newe.len(),
{
    lemma_lookup_last_found(newe, key, i);
    assert forall|k: Seq<char>| k != key implies spec_lookup_last(newe, k) == spec_lookup_last(
        olde,
        k,
    ) by {
        lemma_lookup_last_agree(newe, olde, k);
    }
}

/// Two entry sequences with the same keys in the same order, equal at every
/// position whose key is `k`, give the same scan result for `k`.
proof fn lemma_lookup_last_agree(
    newe: Seq<(Seq<char>, Seq<char>)>,
    olde: Seq<(Seq<char>, Seq<char>)>,
    k: Seq<char>,
)
    requires
        newe.len() == olde.len(),
        forall|j: int| 0 <= j < newe.len() ==> newe[j].0 == olde[j].0,
        forall|j: int| 0 <= j < newe.len() && #[trigger] olde[j].0 == k ==> newe[j] == olde[j],
    ensures
        spec_lookup_last(newe, k) == spec_lookup_last(olde, k),
    decreases newe.len(),
{
    if newe.len() > 0 {
        let last: int = newe.len() - 1;
        if olde[last].0 == k {
            assert(newe[last] == olde[last]);
        } else {
            assert(forall|j: int|
                0 <= j < newe.drop_last().len() ==> newe.drop_last()[j] == newe[j]
                    && olde.drop_last()[j] == olde[j]);
            lemma_lookup_last_agree(newe.drop_last(), olde.drop_last(), k);
        }
    }
}

} // verus!
