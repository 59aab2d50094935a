use theme::apply_overlay;
use theme::Color;
use theme::ColorScaleOptions;
use theme::Definitions;
use theme::FileCategory;
use theme::FilesInput;
use theme::Options;
use theme::Prefix;
use theme::Style;
use theme::UseColours;

fn options(use_colours: UseColours, ls: Option<&str>, exa: Option<&str>) -> Options {
    Options {
        use_colours,
        colour_scale: ColorScaleOptions { size: false },
        definitions: Definitions {
            ls: ls.map(String::from),
            exa: exa.map(String::from),
        },
    }
}

// Disabling colour short-circuits everything: whatever the specification
// strings say, every file gets the plain style.
#[test]
fn never_colours_paints_nothing() {
    let theme = options(UseColours::Never, Some("*.txt=31"), Some("di=32")).to_theme(true);
    assert_eq!(theme.colour_file("foo.txt", None), Style::default());
    assert_eq!(theme.colour_file("foo.txt", Some(FileCategory::Image)), Style::default());
    assert_eq!(theme.ui.filekinds.directory, Style::default());
}

#[test]
fn automatic_without_terminal_paints_nothing() {
    let theme = options(UseColours::Automatic, Some("*.txt=31"), None).to_theme(false);
    assert_eq!(theme.colour_file("foo.txt", Some(FileCategory::Source)), Style::default());
}

#[test]
fn automatic_with_terminal_colours() {
    let theme = options(UseColours::Automatic, Some("*.txt=31"), None).to_theme(true);
    assert_eq!(theme.colour_file("foo.txt", None), Color::Red.normal());
}

// Resolver selection, row by row.
#[test]
fn no_mappings_no_default_yields_no_style() {
    let theme = options(UseColours::Always, None, Some("reset")).to_theme(false);
    // no glob matches and no built-in classification: the normal style
    assert_eq!(theme.colour_file("picture.png", Some(FileCategory::Image)),
        theme.ui.filekinds.normal);
}

#[test]
fn no_mappings_with_default_classifies() {
    let theme = options(UseColours::Always, None, None).to_theme(false);
    assert_eq!(theme.colour_file("picture.png", Some(FileCategory::Image)),
        theme.ui.file_type.image);
    assert_eq!(theme.colour_file("strange", None), theme.ui.filekinds.normal);
}

#[test]
fn mappings_without_default_never_classify() {
    let theme =
        options(UseColours::Always, Some("*.png=31"), Some("reset")).to_theme(false);
    assert_eq!(theme.colour_file("picture.png", Some(FileCategory::Image)), Color::Red.normal());
    // an image by category, but no pattern matches: no classification either
    assert_eq!(theme.colour_file("photo.jpg", Some(FileCategory::Image)),
        theme.ui.filekinds.normal);
}

#[test]
fn mappings_with_default_fall_back() {
    let theme = options(UseColours::Always, Some("*.png=31"), None).to_theme(false);
    // the glob match wins over the classification
    assert_eq!(theme.colour_file("picture.png", Some(FileCategory::Image)), Color::Red.normal());
    // no glob match: the classification answers
    assert_eq!(theme.colour_file("photo.jpg", Some(FileCategory::Image)),
        theme.ui.file_type.image);
    assert_eq!(theme.colour_file("strange", None), theme.ui.filekinds.normal);
}

// The most recently declared matching pattern wins, across both strings.
#[test]
fn later_pattern_wins() {
    let theme =
        options(UseColours::Always, Some("*.txt=31:*t=32"), None).to_theme(false);
    assert_eq!(theme.colour_file("a.txt", None), Color::Green.normal());
    let theme2 =
        options(UseColours::Always, Some("*.txt=31"), Some("*.txt=33")).to_theme(false);
    assert_eq!(theme2.colour_file("a.txt", None), Color::Yellow.normal());
}

// Keys that are valid slot codes are never read as globs: a file literally
// named like the code is not painted by it.
#[test]
fn slot_codes_are_not_globs() {
    let theme = options(UseColours::Always, None, Some("di=31")).to_theme(false);
    assert_eq!(theme.colour_file("di", None), theme.ui.filekinds.normal);
    // in the legacy string the same key is not an extended code, so it is a glob
    let theme2 = options(UseColours::Always, Some("uu=38;5;117"), Some("reset")).to_theme(false);
    assert_eq!(theme2.colour_file("uu", None), Color::Fixed(117).normal());
}

// An invalid glob pattern is dropped; the rest of the string still applies.
#[test]
fn invalid_glob_is_dropped() {
    let theme =
        options(UseColours::Always, Some("[=31:*.txt=32"), None).to_theme(false);
    assert_eq!(theme.colour_file("[", None), theme.ui.filekinds.normal);
    assert_eq!(theme.colour_file("b.txt", None), Color::Green.normal());
}

// Overlay composition: idempotent, and never clears what the base has set.
#[test]
fn overlay_is_idempotent() {
    let base = Color::Red.normal().underline();
    let overlay = Color::Blue.bold();
    let once = apply_overlay(base, overlay);
    let twice = apply_overlay(once, overlay);
    assert_eq!(once, twice);
    assert_eq!(once, Color::Blue.bold().underline());
}

#[test]
fn overlay_keeps_base_attributes() {
    let base = Color::Red.normal().underline().blink();
    let overlay = Style::default().bold();
    let out = apply_overlay(base, overlay);
    assert!(out.is_underline && out.is_blink && out.is_bold);
    assert_eq!(out.foreground, Some(Color::Red));
}

#[test]
fn overlay_without_colour_keeps_base_colour() {
    let base = Color::Cyan.normal();
    let out = apply_overlay(base, Style::default().underline());
    assert_eq!(out, Color::Cyan.normal().underline());
}

// Size magnitude styles.
#[test]
fn size_styles_follow_the_prefix() {
    let theme = options(UseColours::Always, None, Some("nb=31:nk=32:nm=33:ng=34:nt=35"))
        .to_theme(false);
    assert_eq!(theme.size(None), Color::Red.normal());
    assert_eq!(theme.size(Some(Prefix::Kilo)), Color::Green.normal());
    assert_eq!(theme.size(Some(Prefix::Kibi)), Color::Green.normal());
    assert_eq!(theme.size(Some(Prefix::Mega)), Color::Yellow.normal());
    assert_eq!(theme.size(Some(Prefix::Giga)), Color::Blue.normal());
    assert_eq!(theme.size(Some(Prefix::Tera)), Color::Purple.normal());
    assert_eq!(theme.blocksize(Some(Prefix::Gibi)), Color::Blue.normal());
}

#[test]
fn unit_styles_follow_the_prefix() {
    let theme = options(UseColours::Always, None, Some("ub=31:uk=32:um=33:ug=34:ut=35"))
        .to_theme(false);
    assert_eq!(theme.unit(None), Color::Red.normal());
    assert_eq!(theme.unit(Some(Prefix::Mebi)), Color::Yellow.normal());
    assert_eq!(theme.unit(Some(Prefix::Yobi)), Color::Purple.normal());
}

// Where the file list comes from.
#[test]
fn stdin_deduction() {
    assert_eq!(FilesInput::deduce(true, true, None), FilesInput::Args);
    assert_eq!(FilesInput::deduce(false, false, None), FilesInput::Args);
    assert_eq!(
        FilesInput::deduce(false, true, None),
        FilesInput::Stdin(String::from("\n"))
    );
    assert_eq!(
        FilesInput::deduce(false, true, Some(String::from("::"))),
        FilesInput::Stdin(String::from("::"))
    );
}
