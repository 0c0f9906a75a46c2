//! Caller-supplied options: which output format to render, how to filter
//! window groups, and how to treat the save file.

use vstd::prelude::*;

verus! {

/// The document formats the session library can render links into.
#[derive(Debug, Clone, Copy, PartialEq, Eq, Structural)]
#[allow(non_camel_case_types)]
pub enum OutputFormat {
    TEXT,
    RTF,
    RTF_SIMPLE,
    MARKDOWN,
    HTML,
    TYPST,
    PDF,
    PDF_TYPST,
    PDF_MODERN,
    PDF_LEGACY,
    PDF_XML_SIMPLE,
    PDF_XML_ADV,
    PDF_WK_HTML,
    PDF_WK_HTML_LINKED,
    PDF_CHROMIUM_OXIDE,
}

impl OutputFormat {
    /// The stable textual name of each format.
    pub open spec fn spec_as_str(self) -> Seq<char> {
        match self {
            OutputFormat::TEXT => "text"@,
            OutputFormat::RTF => "rtf"@,
            OutputFormat::RTF_SIMPLE => "rtf-simple"@,
            OutputFormat::MARKDOWN => "markdown"@,
            OutputFormat::HTML => "html"@,
            OutputFormat::TYPST => "typst"@,
            OutputFormat::PDF => "pdf"@,
            OutputFormat::PDF_TYPST => "pdf-typst"@,
            OutputFormat::PDF_MODERN => "pdf-modern"@,
            OutputFormat::PDF_LEGACY => "pdf-legacy"@,
            OutputFormat::PDF_XML_SIMPLE => "pdf-xml-simple"@,
            OutputFormat::PDF_XML_ADV => "pdf-xml-adv"@,
            OutputFormat::PDF_WK_HTML => "pdf-wk-html"@,
            OutputFormat::PDF_WK_HTML_LINKED => "pdf-wk-html-linked"@,
            OutputFormat::PDF_CHROMIUM_OXIDE => "pdf-chromium-oxide"@,
        }
    }

    pub fn as_str(self) -> (r: &'static str)
        ensures
            r@ == self.spec_as_str(),
    {
        match self {
            OutputFormat::TEXT => "text",
            OutputFormat::RTF => "rtf",
            OutputFormat::RTF_SIMPLE => "rtf-simple",
            OutputFormat::MARKDOWN => "markdown",
            OutputFormat::HTML => "html",
            OutputFormat::TYPST => "typst",
            OutputFormat::PDF => "pdf",
            OutputFormat::PDF_TYPST => "pdf-typst",
            OutputFormat::PDF_MODERN => "pdf-modern",
            OutputFormat::PDF_LEGACY => "pdf-legacy",
            OutputFormat::PDF_XML_SIMPLE => "pdf-xml-simple",
            OutputFormat::PDF_XML_ADV => "pdf-xml-adv",
            OutputFormat::PDF_WK_HTML => "pdf-wk-html",
            OutputFormat::PDF_WK_HTML_LINKED => "pdf-wk-html-linked",
            OutputFormat::PDF_CHROMIUM_OXIDE => "pdf-chromium-oxide",
        }
    }

    /// Every format, in declaration order.
    pub open spec fn spec_all() -> Seq<OutputFormat> {
        seq![
            OutputFormat::TEXT,
            OutputFormat::RTF,
            OutputFormat::RTF_SIMPLE,
            OutputFormat::MARKDOWN,
            OutputFormat::HTML,
            OutputFormat::TYPST,
            OutputFormat::PDF,
            OutputFormat::PDF_TYPST,
            OutputFormat::PDF_MODERN,
            OutputFormat::PDF_LEGACY,
            OutputFormat::PDF_XML_SIMPLE,
            OutputFormat::PDF_XML_ADV,
            OutputFormat::PDF_WK_HTML,
            OutputFormat::PDF_WK_HTML_LINKED,
            OutputFormat::PDF_CHROMIUM_OXIDE,
        ]
    }

    pub fn all() -> (r: Vec<OutputFormat>)
        ensures
            r@ == OutputFormat::spec_all(),
    {
        let mut v: Vec<OutputFormat> = Vec::new();
        v.push(OutputFormat::TEXT);
        v.push(OutputFormat::RTF);
        v.push(OutputFormat::RTF_SIMPLE);
        v.push(OutputFormat::MARKDOWN);
        v.push(OutputFormat::HTML);
        v.push(OutputFormat::TYPST);
        v.push(OutputFormat::PDF);
        v.push(OutputFormat::PDF_TYPST);
        v.push(OutputFormat::PDF_MODERN);
        v.push(OutputFormat::PDF_LEGACY);
        v.push(OutputFormat::PDF_XML_SIMPLE);
        v.push(OutputFormat::PDF_XML_ADV);
        v.push(OutputFormat::PDF_WK_HTML);
        v.push(OutputFormat::PDF_WK_HTML_LINKED);
        v.push(OutputFormat::PDF_CHROMIUM_OXIDE);
        proof {
            assert(v@ =~= OutputFormat::spec_all());
        }
        v
    }
}

impl Default for OutputFormat {
    fn default() -> (r: OutputFormat)
        ensures
            r == OutputFormat::PDF,
    {
        OutputFormat::PDF
    }
}

/// Options for generating link output. A group-index filter of `None` keeps
/// every group; `Some(indexes)` keeps exactly the groups whose enumeration
/// index appears in the list.
#[derive(Debug, Clone, PartialEq, Eq)]
pub struct GenerateOptions {
    pub open_group_indexes: Option<Vec<u32>>,
    pub closed_group_indexes: Option<Vec<u32>>,
    pub sort_groups: bool,
    pub table_of_content: bool,
    pub tree_style_tab_trees: bool,
    pub sidebery_trees: bool,
}

pub ghost struct GenerateOptionsView {
    pub open_group_indexes: Option<Seq<u32>>,
    pub closed_group_indexes: Option<Seq<u32>>,
    pub sort_groups: bool,
    pub table_of_content: bool,
    pub tree_style_tab_trees: bool,
    pub sidebery_trees: bool,
}

impl View for GenerateOptions {
    type V = GenerateOptionsView;

    open spec fn view(&self) -> GenerateOptionsView {
        GenerateOptionsView {
            open_group_indexes: match self.open_group_indexes {
                Some(ref v) => Some(v@),
                None => None,
            },
            closed_group_indexes: match self.closed_group_indexes {
                Some(ref v) => Some(v@),
                None => None,
            },
            sort_groups: self.sort_groups,
            table_of_content: self.table_of_content,
            tree_style_tab_trees: self.tree_style_tab_trees,
            sidebery_trees: self.sidebery_trees,
        }
    }
}

pub open spec fn spec_default_generate_options() -> GenerateOptionsView {
    GenerateOptionsView {
        open_group_indexes: None,
        closed_group_indexes: None,
        sort_groups: true,
        table_of_content: true,
        tree_style_tab_trees: true,
        sidebery_trees: true,
    }
}

impl Default for GenerateOptions {
    fn default() -> (r: GenerateOptions)
        ensures
            r@ == spec_default_generate_options(),
    {
        GenerateOptions {
            open_group_indexes: None,
            closed_group_indexes: None,
            sort_groups: true,
            table_of_content: true,
            tree_style_tab_trees: true,
            sidebery_trees: true,
        }
    }
}

/// The generation options used when rendering with a group selection: the
/// open-group filter applies only when any group is selected at all, the
/// closed-group filter is always the (possibly empty) selection, and every
/// other option keeps its default.
pub open spec fn filtered_generate_options(
    sel_open: Seq<u32>,
    sel_closed: Seq<u32>,
) -> GenerateOptionsView {
    GenerateOptionsView {
        open_group_indexes: if sel_open.len() > 0 || sel_closed.len() > 0 {
            Some(sel_open)
        } else {
            None
        },
        closed_group_indexes: Some(sel_closed),
        sort_groups: true,
        table_of_content: true,
        tree_style_tab_trees: true,
        sidebery_trees: true,
    }
}

/// How the save file is produced: in which format, whether an existing file
/// may be overwritten, and whether missing folders are created.
#[derive(Debug, Clone, Copy, PartialEq, Eq, Structural)]
pub struct OutputOptions {
    pub format: OutputFormat,
    pub overwrite: bool,
    pub create_folder: bool,
}

impl Default for OutputOptions {
    fn default() -> (r: OutputOptions)
        ensures
            r.format == OutputFormat::PDF,
            !r.overwrite,
            !r.create_folder,
    {
        OutputOptions { format: OutputFormat::PDF, overwrite: false, create_folder: false }
    }
}

} // verus!
