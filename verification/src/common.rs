//! Diagnostics and the runtime import registry.
//!
//! Diagnostics are append-only values collected during a pass; the driver
//! that owns the compilation decides what to do with them. Each carries a
//! machine-readable code and the source span of the offending construct.

use vstd::prelude::*;
use vstd::string::StringExecFns;
use crate::Span;

verus! {

/// What went wrong, as a closed taxonomy of compile-time violations.
#[derive(Clone, Copy, PartialEq, Eq, Structural, Debug)]
pub enum DiagCode {
    /// `children` used as an attribute name; slots are child content.
    ChildrenAttr,
    /// More than one `ref` attribute on one element.
    DuplicateRef,
    /// A `ref` attribute without a usable expression value.
    BadRefValue,
    /// An event attribute whose value is not an arrow function.
    BadEventValue,
    /// A markup element or fragment used as an attribute value.
    JsxAttrValue,
    /// A function value for a plain attribute of a non-component element.
    FnAttrValue,
    /// An attribute value of an unsupported kind.
    BadAttrValue,
    /// A spread attribute whose target is not a bare identifier.
    BadSpreadTarget,
    /// More than one spread attribute on one element.
    DuplicateSpread,
    /// A spread attribute combined with constant or watched attributes.
    SpreadNotAlone,
    /// A list key expression not rooted at the loop callable's parameters.
    BadKeyExpr,
}

/// One reported violation, at a source location.
#[derive(Clone, Copy, PartialEq, Eq, Structural, Debug)]
pub struct Diagnostic {
    pub span: Span,
    pub code: DiagCode,
}

/// Append one diagnostic to the sink. Reporting never stops a pass.
pub fn emit_error(sink: &mut Vec<Diagnostic>, span: Span, code: DiagCode)
    ensures
        final(sink)@ == old(sink)@.push(Diagnostic { span, code }),
{
    sink.push(Diagnostic { span, code });
}

impl Diagnostic {
    /// A human-readable description of the violation.
    pub fn message(&self) -> (m: &'static str)
        ensures
            m@ == spec_message(self.code),
    {
        match self.code {
            DiagCode::ChildrenAttr => "the children attribute name is reserved; define slots as child content",
            DiagCode::DuplicateRef => "ref must not be specified more than once",
            DiagCode::BadRefValue => "the ref attribute needs an expression value",
            DiagCode::BadEventValue => "the value of an event attribute must be an arrow function",
            DiagCode::JsxAttrValue => "markup is not a valid attribute value",
            DiagCode::FnAttrValue => "a function is not a valid attribute value; use an on-prefixed event attribute",
            DiagCode::BadAttrValue => "this kind of attribute value is not supported",
            DiagCode::BadSpreadTarget => "a spread attribute must be a bare identifier",
            DiagCode::DuplicateSpread => "a spread attribute must not appear more than once",
            DiagCode::SpreadNotAlone => "a spread attribute excludes other non-event attributes",
            DiagCode::BadKeyExpr => "the key expression must be the loop's own item or index parameter or a property access off it",
        }
    }
}

/// The text of each diagnostic message.
pub open spec fn spec_message(code: DiagCode) -> Seq<char> {
    match code {
        DiagCode::ChildrenAttr => "the children attribute name is reserved; define slots as child content"@,
        DiagCode::DuplicateRef => "ref must not be specified more than once"@,
        DiagCode::BadRefValue => "the ref attribute needs an expression value"@,
        DiagCode::BadEventValue => "the value of an event attribute must be an arrow function"@,
        DiagCode::JsxAttrValue => "markup is not a valid attribute value"@,
        DiagCode::FnAttrValue => "a function is not a valid attribute value; use an on-prefixed event attribute"@,
        DiagCode::BadAttrValue => "this kind of attribute value is not supported"@,
        DiagCode::BadSpreadTarget => "a spread attribute must be a bare identifier"@,
        DiagCode::DuplicateSpread => "a spread attribute must not appear more than once"@,
        DiagCode::SpreadNotAlone => "a spread attribute excludes other non-event attributes"@,
        DiagCode::BadKeyExpr => "the key expression must be the loop's own item or index parameter or a property access off it"@,
    }
}

/// Whether message-internationalization rewriting is off, or on with the
/// rich-text flag.
#[derive(Clone, Copy, PartialEq, Eq, Structural, Debug)]
pub enum IntlType {
    Disabled,
    Enabled(bool),
}

/// The logical runtime capabilities that generated code can call into. Each
/// maps to one named import from the runtime module.
#[derive(Clone, Copy, PartialEq, Eq, Structural, Debug)]
pub enum Capability {
    TextRenderFn,
    RenderIntlText,
    RenderIntlTextWithParams,
    RenderIntlRichText,
    CreateEle,
    CreateEleA,
    Context,
    CreateTextNode,
    SetTextContent,
    Vm,
    AddEvent,
    SetAttribute,
    SetRef,
    RootNodes,
    Slots,
    DefaultSlot,
    NonRootComponentNodes,
    NewComSlots,
    NewComDefaultSlot,
    RenderSlot,
    RenderFc,
    PathWatcher,
    DymPathWatcher,
    ExprWatcher,
    WatchForRender,
    WatchPathForRender,
    WatchPathForRender2,
    IfComponent,
    ForComponent,
}

/// The runtime module's exported name for each capability.
pub open spec fn capability_name(c: Capability) -> Seq<char> {
    match c {
        Capability::TextRenderFn => "textRenderFn"@,
        Capability::RenderIntlText => "renderIntlText"@,
        Capability::RenderIntlTextWithParams => "renderIntlTextWithParams"@,
        Capability::RenderIntlRichText => "renderIntlRichText"@,
        Capability::CreateEle => "createEle"@,
        Capability::CreateEleA => "createEleA"@,
        Capability::Context => "CONTEXT"@,
        Capability::CreateTextNode => "createTextNode"@,
        Capability::SetTextContent => "setTextContent"@,
        Capability::Vm => "vm"@,
        Capability::AddEvent => "addEvent"@,
        Capability::SetAttribute => "setAttribute"@,
        Capability::SetRef => "setRefForComponent"@,
        Capability::RootNodes => "ROOT_NODES"@,
        Capability::Slots => "SLOTS"@,
        Capability::DefaultSlot => "DEFAULT_SLOT"@,
        Capability::NonRootComponentNodes => "NON_ROOT_COMPONENT_NODES"@,
        Capability::NewComSlots => "newComponentWithSlots"@,
        Capability::NewComDefaultSlot => "newComponentWithDefaultSlot"@,
        Capability::RenderSlot => "renderSlotFunction"@,
        Capability::RenderFc => "renderFunctionComponent"@,
        Capability::PathWatcher => "PathWatcher"@,
        Capability::DymPathWatcher => "DymPathWatcher"@,
        Capability::ExprWatcher => "ExprWatcher"@,
        Capability::WatchForRender => "watchForRender"@,
        Capability::WatchPathForRender => "watchPathForRender"@,
        Capability::WatchPathForRender2 => "watchPathForRender2"@,
        Capability::IfComponent => "If"@,
        Capability::ForComponent => "For"@,
    }
}

fn capability_name_exec(c: Capability) -> (s: &'static str)
    ensures
        s@ == capability_name(c),
{
    match c {
        Capability::TextRenderFn => "textRenderFn",
        Capability::RenderIntlText => "renderIntlText",
        Capability::RenderIntlTextWithParams => "renderIntlTextWithParams",
        Capability::RenderIntlRichText => "renderIntlRichText",
        Capability::CreateEle => "createEle",
        Capability::CreateEleA => "createEleA",
        Capability::Context => "CONTEXT",
        Capability::CreateTextNode => "createTextNode",
        Capability::SetTextContent => "setTextContent",
        Capability::Vm => "vm",
        Capability::AddEvent => "addEvent",
        Capability::SetAttribute => "setAttribute",
        Capability::SetRef => "setRefForComponent",
        Capability::RootNodes => "ROOT_NODES",
        Capability::Slots => "SLOTS",
        Capability::DefaultSlot => "DEFAULT_SLOT",
        Capability::NonRootComponentNodes => "NON_ROOT_COMPONENT_NODES",
        Capability::NewComSlots => "newComponentWithSlots",
        Capability::NewComDefaultSlot => "newComponentWithDefaultSlot",
        Capability::RenderSlot => "renderSlotFunction",
        Capability::RenderFc => "renderFunctionComponent",
        Capability::PathWatcher => "PathWatcher",
        Capability::DymPathWatcher => "DymPathWatcher",
        Capability::ExprWatcher => "ExprWatcher",
        Capability::WatchForRender => "watchForRender",
        Capability::WatchPathForRender => "watchPathForRender",
        Capability::WatchPathForRender2 => "watchPathForRender2",
        Capability::IfComponent => "If",
        Capability::ForComponent => "For",
    }
}

/// One named runtime import: the exported name in the runtime module and the
/// unique local binding that generated code calls.
#[derive(Debug, PartialEq, Eq)]
pub struct JingeImport {
    pub local: String,
    pub imported: String,
}

impl JingeImport {
    /// The local binding name.
    pub fn local(&self) -> (r: String)
        ensures
            r@ == self.local@,
    {
        self.local.clone()
    }

    /// The exported name in the runtime module.
    pub fn imported(&self) -> (r: String)
        ensures
            r@ == self.imported@,
    {
        self.imported.clone()
    }
}

/// Look one capability up in the registry: the local binding is the exported
/// name with the generated-code marker appended, so that generated bindings
/// can never collide with user identifiers.
pub fn jinge_import(c: Capability) -> (im: JingeImport)
    ensures
        im.imported@ == capability_name(c),
        im.local@ == capability_name(c) + "$jg$"@,
{
    let name = capability_name_exec(c);
    let local = String::from_str(name).concat("$jg$");
    JingeImport { local, imported: String::from_str(name) }
}

/// The capabilities the synthesized import statement carries, in the order
/// they are emitted.
pub open spec fn all_capabilities() -> Seq<Capability> {
    seq![
        Capability::TextRenderFn,
        Capability::RenderIntlText,
        Capability::RenderIntlTextWithParams,
        Capability::RenderIntlRichText,
        Capability::CreateEle,
        Capability::CreateEleA,
        Capability::Context,
        Capability::CreateTextNode,
        Capability::SetTextContent,
        Capability::Vm,
        Capability::AddEvent,
        Capability::SetAttribute,
        Capability::SetRef,
        Capability::RootNodes,
        Capability::Slots,
        Capability::DefaultSlot,
        Capability::NonRootComponentNodes,
        Capability::NewComSlots,
        Capability::NewComDefaultSlot,
        Capability::RenderSlot,
        Capability::RenderFc,
        Capability::PathWatcher,
        Capability::DymPathWatcher,
        Capability::ExprWatcher,
        Capability::WatchForRender,
        Capability::WatchPathForRender,
        Capability::WatchPathForRender2,
        Capability::IfComponent,
        Capability::ForComponent,
    ]
}

/// The synthesized import statement: every listed specifier is imported from
/// the runtime module by name.
#[derive(Debug, PartialEq, Eq)]
pub struct ImportDecl {
    pub src: String,
    pub specifiers: Vec<JingeImport>,
}

/// Build the import statement that the driver inserts once at the top of a
/// generated module. It aggregates the full fixed set of runtime
/// capabilities, whether or not a given template used them all.
pub fn gen_import_jinge() -> (r: ImportDecl)
    ensures
        r.src@ == "jinge"@,
        r.specifiers@.len() == all_capabilities().len(),
        forall|i: int|
            0 <= i < r.specifiers@.len() ==> {
                &&& (#[trigger] r.specifiers@[i]).imported@ == capability_name(
                    all_capabilities()[i],
                )
                &&& r.specifiers@[i].local@ == capability_name(all_capabilities()[i]) + "$jg$"@
            },
{
    let mut sp: Vec<JingeImport> = Vec::new();
    sp.push(jinge_import(Capability::TextRenderFn));
    sp.push(jinge_import(Capability::RenderIntlText));
    sp.push(jinge_import(Capability::RenderIntlTextWithParams));
    sp.push(jinge_import(Capability::RenderIntlRichText));
    sp.push(jinge_import(Capability::CreateEle));
    sp.push(jinge_import(Capability::CreateEleA));
    sp.push(jinge_import(Capability::Context));
    sp.push(jinge_import(Capability::CreateTextNode));
    sp.push(jinge_import(Capability::SetTextContent));
    sp.push(jinge_import(Capability::Vm));
    sp.push(jinge_import(Capability::AddEvent));
    sp.push(jinge_import(Capability::SetAttribute));
    sp.push(jinge_import(Capability::SetRef));
    sp.push(jinge_import(Capability::RootNodes));
    sp.push(jinge_import(Capability::Slots));
    sp.push(jinge_import(Capability::DefaultSlot));
    sp.push(jinge_import(Capability::NonRootComponentNodes));
    sp.push(jinge_import(Capability::NewComSlots));
    sp.push(jinge_import(Capability::NewComDefaultSlot));
    sp.push(jinge_import(Capability::RenderSlot));
    sp.push(jinge_import(Capability::RenderFc));
    sp.push(jinge_import(Capability::PathWatcher));
    sp.push(jinge_import(Capability::DymPathWatcher));
    sp.push(jinge_import(Capability::ExprWatcher));
    sp.push(jinge_import(Capability::WatchForRender));
    sp.push(jinge_import(Capability::WatchPathForRender));
    sp.push(jinge_import(Capability::WatchPathForRender2));
    sp.push(jinge_import(Capability::IfComponent));
    sp.push(jinge_import(Capability::ForComponent));
    ImportDecl { src: String::from_str("jinge"), specifiers: sp }
}

/// The attributes that generated code must set by direct property
/// assignment rather than through the attribute setter.
pub open spec fn spec_is_idl_attribute(n: Seq<char>) -> bool {
    ||| n == "disabled"@
    ||| n == "readOnly"@
    ||| n == "value"@
    ||| n == "autoFocus"@
    ||| n == "autoComplete"@
    ||| n == "autoPlay"@
    ||| n == "controls"@
    ||| n == "required"@
    ||| n == "checked"@
    ||| n == "selected"@
    ||| n == "multiple"@
    ||| n == "muted"@
    ||| n == "draggable"@
}

/// Whether a DOM attribute belongs to the fixed idl-assignment set.
pub fn is_idl_attribute(name: &str) -> (r: bool)
    ensures
        r == spec_is_idl_attribute(name@),
{
    crate::text::str_eq(name, "disabled") || crate::text::str_eq(name, "readOnly")
        || crate::text::str_eq(name, "value") || crate::text::str_eq(name, "autoFocus")
        || crate::text::str_eq(name, "autoComplete") || crate::text::str_eq(name, "autoPlay")
        || crate::text::str_eq(name, "controls") || crate::text::str_eq(name, "required")
        || crate::text::str_eq(name, "checked") || crate::text::str_eq(name, "selected")
        || crate::text::str_eq(name, "multiple") || crate::text::str_eq(name, "muted")
        || crate::text::str_eq(name, "draggable")
}

} // verus!
