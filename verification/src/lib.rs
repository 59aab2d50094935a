//! Colour and style resolution for a file-listing tool.
//!
//! Two colon-separated, environment-style specification strings are parsed
//! into a table of named display styles and an ordered list of
//! glob-pattern-to-style associations; a theme built from those answers, per
//! file, the single style that should paint its name.

pub mod exts;
pub mod globs;
pub mod lsc;
pub mod resolver;
pub mod stdin;
pub mod style;
pub mod text;
pub mod ui_styles;

pub use exts::ExtensionMappings;
pub use resolver::FileCategory;
pub use resolver::FileStyleResolver;
pub use stdin::FilesInput;
pub use style::apply_overlay;
pub use style::Color;
pub use style::Style;
pub use ui_styles::ColorScaleOptions;
pub use ui_styles::UiStyles;

use crate::globs::glob_compiles;
use crate::globs::glob_ok;
use crate::lsc::pairs_of;
use crate::lsc::spec_style_of;
use crate::lsc::style_of_value;
use crate::lsc::Pair;
use crate::text::chars_of;
use crate::ui_styles::apply_exa_key;
use crate::ui_styles::apply_ls_key;
use crate::ui_styles::exa_slots;
use crate::ui_styles::ls_slot;
use vstd::prelude::*;

verus! {

/// Under what circumstances coloured rather than plain output should be
/// produced. The automatic mode colours only when output goes to a terminal,
/// so that pipes receive plain text.
#[derive(PartialEq, Eq, Debug, Copy, Clone)]
pub enum UseColours {
    /// Colour even when output is not going to a terminal.
    Always,
    /// Colour when output is going to a terminal, but not otherwise.
    Automatic,
    /// Never colour, even for a terminal.
    Never,
}

/// The two raw specification strings, both optional: the legacy-format one
/// and the extended-format one.
#[derive(PartialEq, Eq, Debug, Default)]
pub struct Definitions {
    pub ls: Option<String>,
    pub exa: Option<String>,
}

/// Everything the theme assembly needs: the colour policy, the colour-scale
/// configuration, and the two specification strings.
#[derive(PartialEq, Eq, Debug)]
pub struct Options {
    pub use_colours: UseColours,
    pub colour_scale: ColorScaleOptions,
    pub definitions: Definitions,
}

/// The assembled theme: the style table and the file-style resolver, both
/// immutable once built.
pub struct Theme {
    pub ui: UiStyles,
    pub exts: FileStyleResolver,
}

// ---------------------------------------------------------------------------
// The spec parser
// ---------------------------------------------------------------------------

/// Effect of one `key=value` pair on the table and the glob list. The key is
/// tried against the legacy code set first, then (for the extended string
/// only) against the extended code set, and only an unrecognized key is
/// compiled as a glob pattern; one that fails to compile is dropped.
pub open spec fn spec_step(
    ui: UiStyles,
    exts: Seq<(Seq<char>, Style)>,
    key: Seq<char>,
    value: Seq<char>,
    exa: bool,
) -> (UiStyles, Seq<(Seq<char>, Style)>) {
    let st = spec_style_of(value);
    match apply_ls_key(ui, key, st) {
        Some(u) => (u, exts),
        None => {
            let ext_applied = if exa {
                apply_exa_key(ui, key, st)
            } else {
                None
            };
            match ext_applied {
                Some(u) => (u, exts),
                None => if glob_ok(key) {
                    (ui, exts.push((key, st)))
                } else {
                    (ui, exts)
                },
            }
        },
    }
}

/// Folding a whole pair sequence over the table, left to right, from
/// position `i` on.
pub open spec fn run_pairs_from(
    ui: UiStyles,
    exts: Seq<(Seq<char>, Style)>,
    ps: Seq<(Seq<char>, Seq<char>)>,
    exa: bool,
    i: int,
) -> (UiStyles, Seq<(Seq<char>, Style)>)
    decreases ps.len() - i,
{
    if i < 0 || i >= ps.len() {
        (ui, exts)
    } else {
        let stepped = spec_step(ui, exts, ps[i].0, ps[i].1, exa);
        run_pairs_from(stepped.0, stepped.1, ps, exa, i + 1)
    }
}

/// Whether the extended string asks to drop the built-in file-type
/// colouring: it is exactly `reset`, or begins with `reset:`. The remaining
/// pairs are still processed normally.
pub open spec fn spec_reset(s: Seq<char>) -> bool {
    s == seq!['r', 'e', 's', 'e', 't'] || (s.len() >= 6 && s.subrange(0, 6) == seq![
        'r',
        'e',
        's',
        'e',
        't',
        ':',
    ])
}

/// What parsing both specification strings yields: the mutated table, the
/// accumulated glob list (legacy entries first, extended entries after), and
/// the use-built-in-file-types flag.
pub open spec fn spec_parse_color_vars(
    ui: UiStyles,
    ls: Option<Seq<char>>,
    exa: Option<Seq<char>>,
) -> (UiStyles, Seq<(Seq<char>, Style)>, bool) {
    let after_ls = match ls {
        Some(s) => run_pairs_from(ui, Seq::empty(), pairs_of(s), false, 0),
        None => (ui, Seq::empty()),
    };
    let use_default = match exa {
        Some(s) => !spec_reset(s),
        None => true,
    };
    let after_exa = match exa {
        Some(s) => run_pairs_from(after_ls.0, after_ls.1, pairs_of(s), true, 0),
        None => after_ls,
    };
    (after_exa.0, after_exa.1, use_default)
}

fn is_reset(cs: &Vec<char>) -> (r: bool)
    ensures
        r == spec_reset(cs@),
{
    if cs.len() == 5 && cs[0] == 'r' && cs[1] == 'e' && cs[2] == 's' && cs[3] == 'e' && cs[4]
        == 't' {
        proof {
            assert(cs@ =~= seq!['r', 'e', 's', 'e', 't']);
        }
        true
    } else if cs.len() >= 6 && cs[0] == 'r' && cs[1] == 'e' && cs[2] == 's' && cs[3] == 'e' && cs[4]
        == 't' && cs[5] == ':' {
        proof {
            assert(cs@.subrange(0, 6) =~= seq!['r', 'e', 's', 'e', 't', ':']);
        }
        true
    } else {
        proof {
            if cs@ == seq!['r', 'e', 's', 'e', 't'] {
                assert(cs@.len() == 5);
                assert(cs@[0] == 'r' && cs@[1] == 'e' && cs@[2] == 's' && cs@[3] == 'e' && cs@[4]
                    == 't');
            }
            if cs@.len() >= 6 && cs@.subrange(0, 6) == seq!['r', 'e', 's', 'e', 't', ':'] {
                assert(forall|k: int| 0 <= k < 6 ==> cs@[k] == cs@.subrange(0, 6)[k]);
            }
        }
        false
    }
}

/// Process one pair list against the table and the glob list, in order.
fn process_pairs(
    colours: &mut UiStyles,
    exts: &mut ExtensionMappings,
    prs: &Vec<Pair>,
    exa: bool,
    sps: Ghost<Seq<(Seq<char>, Seq<char>)>>,
)
    requires
        prs@.len() == sps@.len(),
        forall|i: int|
            0 <= i < prs@.len() ==> (#[trigger] prs@[i]).key@ == sps@[i].0 && prs@[i].value@
                == sps@[i].1,
    ensures
        ({
            let folded = run_pairs_from(*old(colours), old(exts)@, sps@, exa, 0);
            *final(colours) == folded.0 && final(exts)@ == folded.1
        }),
{
    let ghost ui0 = *colours;
    let ghost e0 = exts@;
    let n = prs.len();
    let mut i: usize = 0;
    while i < n
        invariant
            n == prs@.len(),
            n == sps@.len(),
            forall|k: int|
                0 <= k < n ==> (#[trigger] prs@[k]).key@ == sps@[k].0 && prs@[k].value@
                    == sps@[k].1,
            i <= n,
            run_pairs_from(ui0, e0, sps@, exa, 0) == run_pairs_from(
                *colours,
                exts@,
                sps@,
                exa,
                i as int,
            ),
        decreases n - i,
    {
        let ghost ui_before = *colours;
        let ghost e_before = exts@;
        let p = &prs[i];
        let st = style_of_value(&p.value);
        let did_ls = colours.set_ls(&p.key, st);
        if !did_ls {
            let did_exa = if exa {
                colours.set_exa(&p.key, st)
            } else {
                false
            };
            if !did_exa {
                if glob_compiles(&p.key) {
                    let pat = crate::text::vec_subrange(&p.key, 0, p.key.len());
                    proof {
                        assert(pat@ =~= p.key@);
                    }
                    exts.add(pat, st);
                }
            }
        }
        proof {
            assert(spec_step(ui_before, e_before, sps@[i as int].0, sps@[i as int].1, exa) == (
                *colours,
                exts@,
            ));
        }
        i = i + 1;
    }
}

impl Definitions {
    /// The legacy string's characters, when the string is present.
    pub open spec fn ls_view(&self) -> Option<Seq<char>> {
        match self.ls {
            Some(s) => Some(s@),
            None => None,
        }
    }

    /// The extended string's characters, when the string is present.
    pub open spec fn exa_view(&self) -> Option<Seq<char>> {
        match self.exa {
            Some(s) => Some(s@),
            None => None,
        }
    }

    /// Parse the two specification strings: glob associations accumulate into
    /// the returned mapping list (legacy entries before extended ones), the
    /// recognized UI codes overwrite table slots in place, and the returned
    /// flag says whether built-in file-type colouring stays active.
    pub fn parse_color_vars(&self, colours: &mut UiStyles) -> (r: (ExtensionMappings, bool))
        ensures
            ({
                let parsed = spec_parse_color_vars(*old(colours), self.ls_view(), self.exa_view());
                *final(colours) == parsed.0 && r.0@ == parsed.1 && r.1 == parsed.2
            }),
    {
        let mut exts = ExtensionMappings::new();
        if let Some(lsc_var) = &self.ls {
            let cs = chars_of(lsc_var.as_str());
            let prs = crate::lsc::pairs_of_var(&cs);
            process_pairs(colours, &mut exts, &prs, false, Ghost(pairs_of(lsc_var@)));
        }
        let mut use_default_filetypes = true;
        if let Some(exa_var) = &self.exa {
            let cs = chars_of(exa_var.as_str());
            if is_reset(&cs) {
                use_default_filetypes = false;
            }
            let prs = crate::lsc::pairs_of_var(&cs);
            process_pairs(colours, &mut exts, &prs, true, Ghost(pairs_of(exa_var@)));
        }
        (exts, use_default_filetypes)
    }
}

// ---------------------------------------------------------------------------
// Theme assembly
// ---------------------------------------------------------------------------

/// Whether the colour policy, together with the terminal-ness of the output,
/// disables colouring altogether.
pub open spec fn spec_colours_disabled(uc: UseColours, isatty: bool) -> bool {
    uc is Never || (uc is Automatic && !isatty)
}

impl Options {
    /// Assemble the theme. With colours disabled the spec parser is bypassed
    /// entirely: the table is all-plain and nothing is ever styled.
    /// Otherwise the default theme is amended by the two specification
    /// strings and the resolver variant follows from what was parsed.
    pub fn to_theme(&self, isatty: bool) -> (r: Theme)
        ensures
            spec_colours_disabled(self.use_colours, isatty) ==> r.ui == UiStyles::spec_plain()
                && r.exts is NoStyle,
            !spec_colours_disabled(self.use_colours, isatty) ==> ({
                let parsed = spec_parse_color_vars(
                    UiStyles::spec_default_theme(self.colour_scale),
                    self.definitions.ls_view(),
                    self.definitions.exa_view(),
                );
                &&& r.ui == parsed.0
                &&& parsed.1.len() == 0 && !parsed.2 ==> r.exts is NoStyle
                &&& parsed.1.len() == 0 && parsed.2 ==> r.exts is FileTypes
                &&& parsed.1.len() > 0 && !parsed.2 ==> (r.exts matches
                    FileStyleResolver::Extensions(m) && m@ == parsed.1)
                &&& parsed.1.len() > 0 && parsed.2 ==> (r.exts matches FileStyleResolver::Both(m)
                    && m@ == parsed.1)
            }),
    {
        let disabled = matches!(self.use_colours, UseColours::Never) || (matches!(
            self.use_colours,
            UseColours::Automatic,
        ) && !isatty);
        if disabled {
            let ui = UiStyles::plain();
            return Theme { ui, exts: FileStyleResolver::NoStyle };
        }
        let mut ui = UiStyles::default_theme(self.colour_scale);
        let (exts, use_default_filetypes) = self.definitions.parse_color_vars(&mut ui);
        let non_empty = exts.is_non_empty();
        let resolver = if !non_empty && !use_default_filetypes {
            FileStyleResolver::NoStyle
        } else if !non_empty && use_default_filetypes {
            FileStyleResolver::FileTypes
        } else if non_empty && !use_default_filetypes {
            FileStyleResolver::Extensions(exts)
        } else {
            FileStyleResolver::Both(exts)
        };
        Theme { ui, exts: resolver }
    }
}

// ---------------------------------------------------------------------------
// Per-file resolution and the theme's accessors
// ---------------------------------------------------------------------------

/// A size magnitude prefix, as the rendering pipeline hands it over: either
/// a decimal or a binary unit prefix.
#[derive(Clone, Copy, Debug, PartialEq, Eq)]
pub enum Prefix {
    Kilo,
    Mega,
    Giga,
    Tera,
    Peta,
    Exa,
    Zetta,
    Yotta,
    Kibi,
    Mebi,
    Gibi,
    Tebi,
    Pebi,
    Exbi,
    Zebi,
    Yobi,
}

/// The size-number style for a magnitude prefix.
pub open spec fn spec_size_number_style(ui: UiStyles, prefix: Option<Prefix>) -> Style {
    match prefix {
        None => ui.size.number_byte,
        Some(p) => match p {
            Prefix::Kilo | Prefix::Kibi => ui.size.number_kilo,
            Prefix::Mega | Prefix::Mebi => ui.size.number_mega,
            Prefix::Giga | Prefix::Gibi => ui.size.number_giga,
            _ => ui.size.number_huge,
        },
    }
}

/// The size-unit style for a magnitude prefix.
pub open spec fn spec_size_unit_style(ui: UiStyles, prefix: Option<Prefix>) -> Style {
    match prefix {
        None => ui.size.unit_byte,
        Some(p) => match p {
            Prefix::Kilo | Prefix::Kibi => ui.size.unit_kilo,
            Prefix::Mega | Prefix::Mebi => ui.size.unit_mega,
            Prefix::Giga | Prefix::Gibi => ui.size.unit_giga,
            _ => ui.size.unit_huge,
        },
    }
}

impl Theme {
    /// The style that paints a file's name, given the file's name and its
    /// type category: the resolver's answer, or the normal file-kind style
    /// when it has none.
    pub open spec fn spec_colour_file(self, name: Seq<char>, cat: Option<FileCategory>) -> Style {
        match self.exts.spec_get_style(name, cat, self.ui) {
            Some(st) => st,
            None => self.ui.filekinds.normal,
        }
    }

    /// Resolve the single style that should paint this file's name.
    pub fn colour_file(&self, name: &str, cat: Option<FileCategory>) -> (r: Style)
        ensures
            r == self.spec_colour_file(name@, cat),
    {
        match self.exts.get_style(name, cat, &self.ui) {
            Some(st) => st,
            None => self.ui.filekinds.normal,
        }
    }

    pub fn blocksize(&self, prefix: Option<Prefix>) -> (r: Style)
        ensures
            r == spec_size_number_style(self.ui, prefix),
    {
        match prefix {
            None => self.ui.size.number_byte,
            Some(p) => match p {
                Prefix::Kilo | Prefix::Kibi => self.ui.size.number_kilo,
                Prefix::Mega | Prefix::Mebi => self.ui.size.number_mega,
                Prefix::Giga | Prefix::Gibi => self.ui.size.number_giga,
                _ => self.ui.size.number_huge,
            },
        }
    }

    pub fn size(&self, prefix: Option<Prefix>) -> (r: Style)
        ensures
            r == spec_size_number_style(self.ui, prefix),
    {
        self.blocksize(prefix)
    }

    pub fn unit(&self, prefix: Option<Prefix>) -> (r: Style)
        ensures
            r == spec_size_unit_style(self.ui, prefix),
    {
        match prefix {
            None => self.ui.size.unit_byte,
            Some(p) => match p {
                Prefix::Kilo | Prefix::Kibi => self.ui.size.unit_kilo,
                Prefix::Mega | Prefix::Mebi => self.ui.size.unit_mega,
                Prefix::Giga | Prefix::Gibi => self.ui.size.unit_giga,
                _ => self.ui.size.unit_huge,
            },
        }
    }
}

/// Law: a theme whose colours are disabled answers no style for any file, so
/// every file falls back to the one fixed plain style.
pub proof fn lemma_disabled_theme_paints_nothing(
    t: Theme,
    name: Seq<char>,
    cat: Option<FileCategory>,
)
    requires
        t.ui == UiStyles::spec_plain(),
        t.exts is NoStyle,
    ensures
        t.exts.spec_get_style(name, cat, t.ui) == None::<Style>,
        t.spec_colour_file(name, cat) == Style::spec_plain(),
{
}

/// Whether processing `key` writes the slot `j`: a legacy code writes its
/// one slot in either string; an extended code writes its slots in the
/// extended string only.
pub open spec fn writes_slot(key: Seq<char>, exa: bool, j: ui_styles::SlotId) -> bool {
    match ls_slot(key) {
        Some(id) => id == j,
        None => exa && match exa_slots(key) {
            Some(ids) => ids.contains(j),
            None => false,
        },
    }
}

/// The style of the last pair, from position `i` on, that writes slot `j`;
/// nothing when no pair does.
pub open spec fn last_write_from(
    ps: Seq<(Seq<char>, Seq<char>)>,
    exa: bool,
    j: ui_styles::SlotId,
    i: int,
) -> Option<Style>
    decreases ps.len() - i,
{
    if i < 0 || i >= ps.len() {
        None
    } else {
        let rest = last_write_from(ps, exa, j, i + 1);
        if rest is Some {
            rest
        } else if writes_slot(ps[i].0, exa, j) {
            Some(spec_style_of(ps[i].1))
        } else {
            None
        }
    }
}

/// One step writes exactly the slots its key names: slot `j` holds the
/// pair's style when the key writes it, and is untouched otherwise.
pub proof fn lemma_step_slot(
    ui: UiStyles,
    exts: Seq<(Seq<char>, Style)>,
    key: Seq<char>,
    value: Seq<char>,
    exa: bool,
    j: ui_styles::SlotId,
)
    ensures
        spec_step(ui, exts, key, value, exa).0.slot(j) == if writes_slot(key, exa, j) {
            spec_style_of(value)
        } else {
            ui.slot(j)
        },
{
    let st = spec_style_of(value);
    match ls_slot(key) {
        Some(id) => {
            ui_styles::lemma_legacy_updates_exactly_one_slot(ui, key, st);
        },
        None => {
            assert(apply_ls_key(ui, key, st) is None);
            if exa && exa_slots(key) is Some {
                ui_styles::lemma_exa_key_slots(ui, key, st);
            }
        },
    }
}

/// Folding pairs over the table leaves slot `j` holding the last-declared
/// value written to it, or its old style when no pair writes it.
pub proof fn lemma_fold_slot(
    ui: UiStyles,
    exts: Seq<(Seq<char>, Style)>,
    ps: Seq<(Seq<char>, Seq<char>)>,
    exa: bool,
    j: ui_styles::SlotId,
    i: int,
)
    ensures
        run_pairs_from(ui, exts, ps, exa, i).0.slot(j) == match last_write_from(ps, exa, j, i) {
            Some(st) => st,
            None => ui.slot(j),
        },
    decreases ps.len() - i,
{
    if 0 <= i < ps.len() {
        let stepped = spec_step(ui, exts, ps[i].0, ps[i].1, exa);
        lemma_step_slot(ui, exts, ps[i].0, ps[i].1, exa, j);
        lemma_fold_slot(stepped.0, stepped.1, ps, exa, j, i + 1);
    }
}

/// Law: within a single specification string, for a slot assigned several
/// times, the last-declared value wins; a slot never assigned keeps its
/// style.
pub proof fn lemma_last_declared_wins(
    ui: UiStyles,
    s: Seq<char>,
    exa: bool,
    j: ui_styles::SlotId,
)
    ensures
        run_pairs_from(ui, Seq::empty(), pairs_of(s), exa, 0).0.slot(j) == match last_write_from(
            pairs_of(s),
            exa,
            j,
            0,
        ) {
            Some(st) => st,
            None => ui.slot(j),
        },
{
    lemma_fold_slot(ui, Seq::empty(), pairs_of(s), exa, j, 0);
}

/// Law: when both specification strings assign the same slot, the extended
/// string's value wins, because its pairs are processed second; a slot the
/// extended string leaves alone keeps the legacy string's last value, and a
/// slot neither string writes keeps its default.
pub proof fn lemma_extended_wins(ui: UiStyles, ls: Seq<char>, exa: Seq<char>, j: ui_styles::SlotId)
    ensures
        ({
            let final_slot = spec_parse_color_vars(ui, Some(ls), Some(exa)).0.slot(j);
            match last_write_from(pairs_of(exa), true, j, 0) {
                Some(st) => final_slot == st,
                None => match last_write_from(pairs_of(ls), false, j, 0) {
                    Some(st) => final_slot == st,
                    None => final_slot == ui.slot(j),
                },
            }
        }),
{
    let after_ls = run_pairs_from(ui, Seq::empty(), pairs_of(ls), false, 0);
    lemma_fold_slot(ui, Seq::empty(), pairs_of(ls), false, j, 0);
    lemma_fold_slot(after_ls.0, after_ls.1, pairs_of(exa), true, j, 0);
}

/// Law: glob entries only accumulate: folding pairs appends to the list it
/// is given and never reorders or drops what is already there, so the
/// legacy string's entries precede the extended string's in the one list.
pub proof fn lemma_globs_accumulate(
    ui: UiStyles,
    exts: Seq<(Seq<char>, Style)>,
    ps: Seq<(Seq<char>, Seq<char>)>,
    exa: bool,
    i: int,
)
    ensures
        run_pairs_from(ui, exts, ps, exa, i).1 == exts + run_pairs_from(
            ui,
            Seq::empty(),
            ps,
            exa,
            i,
        ).1,
    decreases ps.len() - i,
{
    if i < 0 || i >= ps.len() {
        assert(exts + Seq::<(Seq<char>, Style)>::empty() =~= exts);
    } else {
        let s1 = spec_step(ui, exts, ps[i].0, ps[i].1, exa);
        let s2 = spec_step(ui, Seq::empty(), ps[i].0, ps[i].1, exa);
        assert(s1.0 == s2.0);
        lemma_globs_accumulate(s1.0, s1.1, ps, exa, i + 1);
        lemma_globs_accumulate(s2.0, s2.1, ps, exa, i + 1);
        assert(s1.1 =~= exts + s2.1);
        assert((exts + s2.1) + run_pairs_from(s2.0, Seq::empty(), ps, exa, i + 1).1 =~= exts + (
        s2.1 + run_pairs_from(s2.0, Seq::empty(), ps, exa, i + 1).1));
    }
}

/// Law: a key that the UI code sets recognize never becomes a glob pattern:
/// the step for such a key leaves the glob list exactly as it was.
pub proof fn lemma_codes_win_over_globs(
    ui: UiStyles,
    exts: Seq<(Seq<char>, Style)>,
    key: Seq<char>,
    value: Seq<char>,
    exa: bool,
)
    requires
        ls_slot(key) is Some || (exa && exa_slots(key) is Some),
    ensures
        spec_step(ui, exts, key, value, exa).1 == exts,
{
}

} // verus!
