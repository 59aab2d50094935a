use crate::globs::glob_match;
use crate::globs::glob_matches;
use crate::globs::glob_ok;
use crate::style::Style;
use vstd::prelude::*;

verus! {

/// The ordered collection of (glob pattern, style) associations gathered
/// while parsing. Entries are never reordered or deduplicated: their order
/// carries the precedence law, later declarations beating earlier ones.
pub struct ExtensionMappings {
    mappings: Vec<(Vec<char>, Style)>,
}

impl View for ExtensionMappings {
    type V = Seq<(Seq<char>, Style)>;

    closed spec fn view(&self) -> Seq<(Seq<char>, Style)> {
        self.mappings@.map_values(|p: (Vec<char>, Style)| (p.0@, p.1))
    }
}

/// The style of the most recently declared pattern that matches `name`,
/// scanning the entries from last to first; nothing when no pattern matches.
/// A pattern that does not compile matches no name.
pub open spec fn ext_lookup(ms: Seq<(Seq<char>, Style)>, name: Seq<char>) -> Option<Style>
    decreases ms.len(),
{
    if ms.len() == 0 {
        None
    } else if glob_ok(ms.last().0) && glob_match(ms.last().0, name) {
        Some(ms.last().1)
    } else {
        ext_lookup(ms.drop_last(), name)
    }
}

impl ExtensionMappings {
    pub fn new() -> (r: ExtensionMappings)
        ensures
            r@ == Seq::<(Seq<char>, Style)>::empty(),
    {
        let r = ExtensionMappings { mappings: Vec::new() };
        proof {
            assert(r@ =~= Seq::<(Seq<char>, Style)>::empty());
        }
        r
    }

    pub fn is_non_empty(&self) -> (r: bool)
        ensures
            r == (self@.len() > 0),
    {
        self.mappings.len() > 0
    }

    /// Append one association. Order of insertion is declaration order and is
    /// kept.
    pub fn add(&mut self, pattern: Vec<char>, style: Style)
        ensures
            final(self)@ == old(self)@.push((pattern@, style)),
    {
        let ghost before = self@;
        self.mappings.push((pattern, style));
        proof {
            assert(self@ =~= before.push((pattern@, style)));
        }
    }

    /// Find the style for a file name: the entries are scanned backwards so
    /// that patterns declared later override patterns declared earlier.
    pub fn get_style(&self, name: &str) -> (r: Option<Style>)
        ensures
            r == ext_lookup(self@, name@),
    {
        let mut i: usize = self.mappings.len();
        proof {
            assert(self@.subrange(0, i as int) =~= self@);
        }
        while i > 0
            invariant
                i <= self@.len(),
                self@.len() == self.mappings@.len(),
                ext_lookup(self@, name@) == ext_lookup(self@.subrange(0, i as int), name@),
            decreases i,
    {
            let pat = &self.mappings[i - 1].0;
            let ghost pre = self@.subrange(0, i as int);
            proof {
                assert(pre.last() == self@[i - 1]);
                assert(self@[i - 1].0 == pat@);
                assert(pre.drop_last() =~= self@.subrange(0, i as int - 1));
            }
            if glob_matches(pat, name) {
                return Some(self.mappings[i - 1].1);
            }
            i = i - 1;
        }
        proof {
            assert(self@.subrange(0, 0) =~= Seq::<(Seq<char>, Style)>::empty());
        }
        None
    }
}

/// Law: when some entry at position `i` matches the name and no later entry
/// does, lookup returns exactly that entry's style.
pub proof fn lemma_ext_lookup_last_match(ms: Seq<(Seq<char>, Style)>, name: Seq<char>, i: int)
    requires
        0 <= i < ms.len(),
        glob_ok(ms[i].0) && glob_match(ms[i].0, name),
        forall|j: int| i < j < ms.len() ==> !(glob_ok(#[trigger] ms[j].0) && glob_match(ms[j].0, name)),
    ensures
        ext_lookup(ms, name) == Some(ms[i].1),
    decreases ms.len(),
{
    if i == ms.len() - 1 {
    } else {
        assert(ms.last() == ms[ms.len() - 1]);
        assert(!(glob_ok(ms[ms.len() - 1].0) && glob_match(ms[ms.len() - 1].0, name)));
        assert(ms.drop_last()[i] == ms[i]);
        assert forall|j: int| i < j < ms.drop_last().len() implies !(glob_ok(
            #[trigger] ms.drop_last()[j].0,
        ) && glob_match(ms.drop_last()[j].0, name)) by {
            assert(ms.drop_last()[j] == ms[j]);
        }
        lemma_ext_lookup_last_match(ms.drop_last(), name, i);
    }
}

/// Law: when no entry matches the name, lookup returns nothing.
pub proof fn lemma_ext_lookup_no_match(ms: Seq<(Seq<char>, Style)>, name: Seq<char>)
    requires
        forall|j: int| 0 <= j < ms.len() ==> !(glob_ok(#[trigger] ms[j].0) && glob_match(ms[j].0, name)),
    ensures
        ext_lookup(ms, name) == None::<Style>,
    decreases ms.len(),
{
    if ms.len() > 0 {
        assert(ms.last() == ms[ms.len() - 1]);
        assert forall|j: int| 0 <= j < ms.drop_last().len() implies !(glob_ok(
            #[trigger] ms.drop_last()[j].0,
        ) && glob_match(ms.drop_last()[j].0, name)) by {
            assert(ms.drop_last()[j] == ms[j]);
        }
        lemma_ext_lookup_no_match(ms.drop_last(), name);
    }
}

} // verus!
