use theme::Color;
use theme::ColorScaleOptions;
use theme::Definitions;
use theme::Style;
use theme::UiStyles;

fn defs(ls: &str, exa: &str) -> Definitions {
    Definitions { ls: Some(String::from(ls)), exa: Some(String::from(exa)) }
}

fn parse(ls: &str, exa: &str) -> UiStyles {
    let mut result = UiStyles::default();
    let (_, _) = defs(ls, exa).parse_color_vars(&mut result);
    result
}

#[test]
fn ls_di() {
    let mut expected = UiStyles::default();
    expected.filekinds.directory = Color::Red.normal();
    assert_eq!(expected, parse("di=31", ""));
}

#[test]
fn ls_ex() {
    let mut expected = UiStyles::default();
    expected.filekinds.executable = Color::Green.normal();
    assert_eq!(expected, parse("ex=32", ""));
}

#[test]
fn ls_fi() {
    let mut expected = UiStyles::default();
    expected.filekinds.normal = Color::Yellow.normal();
    assert_eq!(expected, parse("fi=33", ""));
}

#[test]
fn ls_pi() {
    let mut expected = UiStyles::default();
    expected.filekinds.pipe = Color::Blue.normal();
    assert_eq!(expected, parse("pi=34", ""));
}

#[test]
fn ls_so() {
    let mut expected = UiStyles::default();
    expected.filekinds.socket = Color::Purple.normal();
    assert_eq!(expected, parse("so=35", ""));
}

#[test]
fn ls_bd() {
    let mut expected = UiStyles::default();
    expected.filekinds.block_device = Color::Cyan.normal();
    assert_eq!(expected, parse("bd=36", ""));
}

#[test]
fn ls_cd() {
    let mut expected = UiStyles::default();
    expected.filekinds.char_device = Color::Purple.normal();
    assert_eq!(expected, parse("cd=35", ""));
}

#[test]
fn ls_ln() {
    let mut expected = UiStyles::default();
    expected.filekinds.symlink = Color::Blue.normal();
    assert_eq!(expected, parse("ln=34", ""));
}

#[test]
fn ls_or() {
    let mut expected = UiStyles::default();
    expected.broken_symlink = Color::Yellow.normal();
    assert_eq!(expected, parse("or=33", ""));
}

#[test]
fn exa_di() {
    let mut expected = UiStyles::default();
    expected.filekinds.directory = Color::Green.normal();
    assert_eq!(expected, parse("", "di=32"));
}

#[test]
fn exa_ur() {
    let mut expected = UiStyles::default();
    expected.perms.user_read = Color::Fixed(100).normal();
    assert_eq!(expected, parse("", "ur=38;5;100"));
}

#[test]
fn exa_gw() {
    let mut expected = UiStyles::default();
    expected.perms.group_write = Color::Fixed(105).normal();
    assert_eq!(expected, parse("", "gw=38;5;105"));
}

#[test]
fn exa_sn_sets_all_number_slots() {
    let mut expected = UiStyles::default();
    expected.size.number_byte = Color::Fixed(113).normal();
    expected.size.number_kilo = Color::Fixed(113).normal();
    expected.size.number_mega = Color::Fixed(113).normal();
    expected.size.number_giga = Color::Fixed(113).normal();
    expected.size.number_huge = Color::Fixed(113).normal();
    assert_eq!(expected, parse("", "sn=38;5;113"));
}

#[test]
fn exa_nk_sets_one_number_slot() {
    let mut expected = UiStyles::default();
    expected.size.number_kilo = Color::Fixed(116).normal();
    assert_eq!(expected, parse("", "nk=38;5;116"));
}

#[test]
fn exa_uu() {
    let mut expected = UiStyles::default();
    expected.users.user_you = Color::Fixed(117).normal();
    assert_eq!(expected, parse("", "uu=38;5;117"));
}

#[test]
fn exa_lc() {
    let mut expected = UiStyles::default();
    expected.links.normal = Color::Fixed(121).normal();
    assert_eq!(expected, parse("", "lc=38;5;121"));
}

#[test]
fn exa_gm() {
    let mut expected = UiStyles::default();
    expected.git.modified = Color::Fixed(124).normal();
    assert_eq!(expected, parse("", "gm=38;5;124"));
}

#[test]
fn exa_bo_overlay() {
    let mut expected = UiStyles::default();
    expected.broken_path_overlay = Style::default().underline();
    assert_eq!(expected, parse("", "bO=4"));
}

#[test]
fn exa_mp() {
    let mut expected = UiStyles::default();
    expected.filekinds.mount_point = Color::Blue.bold().underline();
    assert_eq!(expected, parse("", "mp=1;34;4"));
}

#[test]
fn exa_im() {
    let mut expected = UiStyles::default();
    expected.file_type.image = Color::Fixed(128).normal();
    assert_eq!(expected, parse("", "im=38;5;128"));
}

#[test]
fn exa_sn_security_none() {
    let mut expected = UiStyles::default();
    expected.security_context.none = Color::Fixed(128).normal();
    assert_eq!(expected, parse("", "Sn=38;5;128"));
}

#[test]
fn exa_su_selinux_user() {
    let mut expected = UiStyles::default();
    expected.security_context.selinux.user = Color::Fixed(129).normal();
    assert_eq!(expected, parse("", "Su=38;5;129"));
}

// The extended string overrides the legacy string for the same slot.
#[test]
fn extended_overrides_legacy() {
    let mut expected = UiStyles::default();
    expected.filekinds.directory = Color::Green.normal();
    assert_eq!(expected, parse("di=31", "di=32"));
}

// Within one string, the last-declared value for a slot wins.
#[test]
fn ls_overwrite() {
    let mut expected = UiStyles::default();
    expected.filekinds.pipe = Color::Yellow.normal();
    assert_eq!(expected, parse("pi=31:pi=32:pi=33", ""));
}

#[test]
fn exa_overwrite() {
    let mut expected = UiStyles::default();
    expected.date = Color::Blue.normal();
    assert_eq!(expected, parse("", "da=36:da=35:da=34"));
}

// An extended-only code in the legacy string is not a slot write there.
#[test]
fn legacy_string_ignores_extended_codes() {
    let expected = UiStyles::default();
    assert_eq!(expected, parse("uu=38;5;117", ""));
}

// A slot code and a glob key in the same strings.
#[test]
fn slot_and_glob_together() {
    let mut expected = UiStyles::default();
    expected.filekinds.normal = Color::Yellow.normal();
    assert_eq!(expected, parse("*.txt=31", "fi=33"));
}

// The reset sentinel switches built-in file types off but later pairs still
// apply.
#[test]
fn reset_keeps_processing() {
    let mut result = UiStyles::default();
    let (_, use_default) =
        defs("", "reset:fi=33").parse_color_vars(&mut result);
    assert!(!use_default);
    let mut expected = UiStyles::default();
    expected.filekinds.normal = Color::Yellow.normal();
    assert_eq!(expected, result);
}

#[test]
fn reset_alone() {
    let mut result = UiStyles::default();
    let (exts, use_default) = defs("", "reset").parse_color_vars(&mut result);
    assert!(!use_default);
    assert!(!exts.is_non_empty());
    assert_eq!(UiStyles::default(), result);
}

#[test]
fn reset_elsewhere_does_not_count() {
    let mut result = UiStyles::default();
    let (_, use_default) =
        defs("", "fi=33:reset").parse_color_vars(&mut result);
    assert!(use_default);
}

#[test]
fn no_definitions_changes_nothing() {
    let mut result = UiStyles::default();
    let (exts, use_default) =
        Definitions { ls: None, exa: None }.parse_color_vars(&mut result);
    assert!(use_default);
    assert!(!exts.is_non_empty());
    assert_eq!(UiStyles::default(), result);
}

#[test]
fn default_theme_scale_toggles_size_colours() {
    let flat = UiStyles::default_theme(ColorScaleOptions { size: false });
    let graduated = UiStyles::default_theme(ColorScaleOptions { size: true });
    assert_eq!(flat.size.number_byte, Color::Green.bold());
    assert_eq!(graduated.size.number_byte, Color::Fixed(118).normal());
    assert_eq!(flat.filekinds.directory, graduated.filekinds.directory);
}
