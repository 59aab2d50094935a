use crate::exts::ext_lookup;
use crate::exts::ExtensionMappings;
use crate::style::Style;
use crate::ui_styles::UiStyles;
use vstd::prelude::*;

verus! {

/// The type category a file can be classified under by the excluded
/// file-type-detection collaborator.
#[derive(Clone, Copy, Debug, PartialEq, Eq)]
pub enum FileCategory {
    Image,
    Video,
    Music,
    Lossless,
    Crypto,
    Document,
    Compressed,
    Temp,
    Compiled,
    Build,
    Source,
}

/// The style-table slot a category maps to; nothing for an unclassified
/// file.
pub open spec fn spec_category_style(ui: UiStyles, cat: Option<FileCategory>) -> Option<Style> {
    match cat {
        None => None,
        Some(c) => Some(
            match c {
                FileCategory::Image => ui.file_type.image,
                FileCategory::Video => ui.file_type.video,
                FileCategory::Music => ui.file_type.music,
                FileCategory::Lossless => ui.file_type.lossless,
                FileCategory::Crypto => ui.file_type.crypto,
                FileCategory::Document => ui.file_type.document,
                FileCategory::Compressed => ui.file_type.compressed,
                FileCategory::Temp => ui.file_type.temp,
                FileCategory::Compiled => ui.file_type.compiled,
                FileCategory::Build => ui.file_type.build,
                FileCategory::Source => ui.file_type.source,
            },
        ),
    }
}

/// Built-in file-type classification: map a file's category to the matching
/// file-type slot of the table.
pub fn category_style(ui: &UiStyles, cat: Option<FileCategory>) -> (r: Option<Style>)
    ensures
        r == spec_category_style(*ui, cat),
{
    match cat {
        None => None,
        Some(c) => Some(
            match c {
                FileCategory::Image => ui.file_type.image,
                FileCategory::Video => ui.file_type.video,
                FileCategory::Music => ui.file_type.music,
                FileCategory::Lossless => ui.file_type.lossless,
                FileCategory::Crypto => ui.file_type.crypto,
                FileCategory::Document => ui.file_type.document,
                FileCategory::Compressed => ui.file_type.compressed,
                FileCategory::Temp => ui.file_type.temp,
                FileCategory::Compiled => ui.file_type.compiled,
                FileCategory::Build => ui.file_type.build,
                FileCategory::Source => ui.file_type.source,
            },
        ),
    }
}

/// The capability that answers, per file, which style should paint its name.
/// One of four fixed variants, chosen once at theme-assembly time.
pub enum FileStyleResolver {
    /// No style for any file.
    NoStyle,
    /// Built-in file-type classification only.
    FileTypes,
    /// The parsed glob associations only.
    Extensions(ExtensionMappings),
    /// The glob associations first; built-in classification only when no
    /// pattern matches.
    Both(ExtensionMappings),
}

impl FileStyleResolver {
    /// What each variant answers. The combined variant is strict first-match
    /// with fallback, never a merge of the two answers.
    pub open spec fn spec_get_style(
        self,
        name: Seq<char>,
        cat: Option<FileCategory>,
        ui: UiStyles,
    ) -> Option<Style> {
        match self {
            FileStyleResolver::NoStyle => None,
            FileStyleResolver::FileTypes => spec_category_style(ui, cat),
            FileStyleResolver::Extensions(m) => ext_lookup(m@, name),
            FileStyleResolver::Both(m) => match ext_lookup(m@, name) {
                Some(st) => Some(st),
                None => spec_category_style(ui, cat),
            },
        }
    }

    /// Resolve the style for a file from its name and its type category.
    pub fn get_style(&self, name: &str, cat: Option<FileCategory>, ui: &UiStyles) -> (r: Option<
        Style,
    >)
        ensures
            r == self.spec_get_style(name@, cat, *ui),
    {
        match self {
            FileStyleResolver::NoStyle => None,
            FileStyleResolver::FileTypes => category_style(ui, cat),
            FileStyleResolver::Extensions(m) => m.get_style(name),
            FileStyleResolver::Both(m) => match m.get_style(name) {
                Some(st) => Some(st),
                None => category_style(ui, cat),
            },
        }
    }
}

/// Law: the four resolver variants follow the selection table. With no
/// mappings and no built-in types nothing is styled; with only one source
/// only that source's answers appear; with both, a glob match wins and the
/// built-in classification is only a fallback.
pub proof fn lemma_resolver_table(
    m: ExtensionMappings,
    name: Seq<char>,
    cat: Option<FileCategory>,
    ui: UiStyles,
)
    ensures
        FileStyleResolver::NoStyle.spec_get_style(name, cat, ui) == None::<Style>,
        FileStyleResolver::FileTypes.spec_get_style(name, cat, ui) == spec_category_style(ui, cat),
        FileStyleResolver::Extensions(m).spec_get_style(name, cat, ui) == ext_lookup(m@, name),
        ext_lookup(m@, name) is Some ==> FileStyleResolver::Both(m).spec_get_style(name, cat, ui)
            == ext_lookup(m@, name),
        ext_lookup(m@, name) is None ==> FileStyleResolver::Both(m).spec_get_style(name, cat, ui)
            == spec_category_style(ui, cat),
{
}

} // verus!
