//! Type references and the export configuration.
//!
//! The TypeScript text of a type is not made here. A type reference comes
//! to this library resolved: it holds the text that the type renderer gave
//! for it, or the reason for which the renderer gave none.
use crate::naming::{policy_view, NamingPolicy, NamingPolicyView};
use crate::text::texts;
use specta_typescript::Typescript;
use vstd::prelude::*;
use vstd::string::StringExecFns;

verus! {

/// The settings of the TypeScript exporter, opaque here: a configuration
/// carries them to whoever renders types.
#[verifier::external_type_specification]
#[verifier::external_body]
pub struct ExTypescript(Typescript);

/// A type reference as the type renderer resolved it: the TypeScript text
/// of the type, or the renderer's reason for having none (a type it does
/// not support, a reference it cannot resolve).
#[derive(Clone, Debug, PartialEq, Eq)]
pub enum TypeRef {
    Rendered(String),
    Failed(String),
}

/// What a type reference holds.
pub enum TypeRefView {
    Rendered(Seq<char>),
    Failed(Seq<char>),
}

impl View for TypeRef {
    type V = TypeRefView;

    open spec fn view(&self) -> TypeRefView {
        match self {
            TypeRef::Rendered(text) => TypeRefView::Rendered(text@),
            TypeRef::Failed(reason) => TypeRefView::Failed(reason@),
        }
    }
}

/// Why a document could not be generated.
#[derive(Clone, Debug, PartialEq, Eq)]
pub enum GenerationError {
    /// A referenced type has no text; the renderer's reason is given.
    Type(String),
}

/// What an error holds.
pub enum GenerationErrorView {
    Type(Seq<char>),
}

impl View for GenerationError {
    type V = GenerationErrorView;

    open spec fn view(&self) -> GenerationErrorView {
        match self {
            GenerationError::Type(reason) => GenerationErrorView::Type(reason@),
        }
    }
}

/// The outcome of a rendering step, with its text or its error taken by
/// what it holds.
pub open spec fn text_outcome(out: Result<String, GenerationError>) -> Result<
    Seq<char>,
    GenerationErrorView,
> {
    match out {
        Ok(text) => Ok(text@),
        Err(e) => Err(e@),
    }
}

/// The outcome of a rendering step that gives several texts, with its texts
/// or its error taken by what they hold.
pub open spec fn texts_outcome(out: Result<Vec<String>, GenerationError>) -> Result<
    Seq<Seq<char>>,
    GenerationErrorView,
> {
    match out {
        Ok(all) => Ok(texts(all@)),
        Err(e) => Err(e@),
    }
}

/// The TypeScript text of a type reference, or the error that it has none.
pub open spec fn type_text(typ: TypeRefView) -> Result<Seq<char>, GenerationErrorView> {
    match typ {
        TypeRefView::Rendered(text) => Ok(text),
        TypeRefView::Failed(reason) => Err(GenerationErrorView::Type(reason)),
    }
}

/// The TypeScript text of a type reference. Fails, with the renderer's
/// reason, exactly where the reference holds no text.
pub fn render_type(typ: &TypeRef) -> (out: Result<String, GenerationError>)
    ensures
        text_outcome(out) == type_text(typ@),
{
    match typ {
        TypeRef::Rendered(text) => Ok(text.clone()),
        TypeRef::Failed(reason) => Err(GenerationError::Type(reason.clone())),
    }
}

/// A name with its type after a colon.
pub open spec fn typed_name_text(name: Seq<char>, typ: Seq<char>) -> Seq<char> {
    name + ": "@ + typ
}

/// A name with its rendered type after a colon: a parameter of a function,
/// or an entry of a structural type.
pub fn typed_name(name: &str, typ: &str) -> (out: String)
    ensures
        out@ == typed_name_text(name@, typ@),
{
    let mut out = String::from_str(name);
    out.append(": ");
    out.append(typ);
    out
}

/// What an export is configured with: a header for the written file, an
/// optional naming policy, and the settings of the type renderer.
pub struct ExportConfig {
    pub header: String,
    pub plugin_name: Option<NamingPolicy>,
    pub inner: Typescript,
}

/// What a configuration holds.
pub struct ExportConfigView {
    pub header: Seq<char>,
    pub plugin_name: Option<NamingPolicyView>,
    pub inner: Typescript,
}

impl View for ExportConfig {
    type V = ExportConfigView;

    open spec fn view(&self) -> ExportConfigView {
        ExportConfigView {
            header: self.header@,
            plugin_name: policy_view(self.plugin_name),
            inner: self.inner,
        }
    }
}

impl ExportConfig {
    /// A configuration with an empty header and no naming policy.
    pub fn new(inner: Typescript) -> (cfg: ExportConfig)
        ensures
            cfg@ == (ExportConfigView { header: Seq::empty(), plugin_name: None, inner }),
    {
        ExportConfig { header: String::new(), plugin_name: None, inner }
    }

    /// This configuration with `header` as its header.
    pub fn header(self, header: &str) -> (cfg: ExportConfig)
        ensures
            cfg@ == (ExportConfigView { header: header@, ..self@ }),
    {
        ExportConfig { header: String::from_str(header), ..self }
    }

    /// This configuration with `policy` as its naming policy.
    pub fn plugin_name(self, policy: NamingPolicy) -> (cfg: ExportConfig)
        ensures
            cfg@ == (ExportConfigView { plugin_name: Some(policy@), ..self@ }),
    {
        ExportConfig { plugin_name: Some(policy), ..self }
    }
}

impl From<Typescript> for ExportConfig {
    /// The configuration for the given settings of the type renderer: no
    /// naming policy, and the header that switches the linter off.
    fn from(config: Typescript) -> (cfg: ExportConfig)
        ensures
            cfg@ == (ExportConfigView {
                header: "/* eslint-disable */\n"@,
                plugin_name: None,
                inner: config,
            }),
    {
        ExportConfig::new(config).header("/* eslint-disable */\n")
    }
}

/// A configuration holds strings, which contracts know by their views only:
/// `from` states what it returns in its own `ensures`, over the view, and
/// not as a value in `from_spec`.
impl vstd::std_specs::convert::FromSpecImpl<Typescript> for ExportConfig {
    open spec fn obeys_from_spec() -> bool {
        false
    }

    open spec fn from_spec(config: Typescript) -> ExportConfig {
        arbitrary()
    }
}

} // verus!
