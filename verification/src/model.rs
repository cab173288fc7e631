//! The declarations the generators work on, modelled as plain data: an
//! attribute is its path text plus an optional literal payload, a parameter
//! is a receiver or a named binding, a callable is its signature together
//! with resolved markers and a body kept opaque. Each type has a ghost view
//! over `Seq` so contracts can speak of whole declarations.

use vstd::prelude::*;

verus! {

// ---------------------------------------------------------------------------
// Attributes and markers
// ---------------------------------------------------------------------------

/// An attribute attached to a declaration: the text of its path, and the
/// text of its first literal token, if it carries one.
#[derive(Debug, Clone)]
pub struct Attr {
    pub name: String,
    pub lit: Option<String>,
}

#[verifier::ext_equal]
pub struct AttrV {
    pub name: Seq<char>,
    pub lit: Option<Seq<char>>,
}

impl View for Attr {
    type V = AttrV;

    open spec fn view(&self) -> AttrV {
        AttrV { name: self.name@, lit: self.lit.deep_view() }
    }
}

impl DeepView for Attr {
    type V = AttrV;

    open spec fn deep_view(&self) -> AttrV {
        self@
    }
}

/// The per-callable markers, resolved to a configuration record.
#[derive(Debug, Clone, Copy, PartialEq, Eq, Structural)]
pub struct MarkerSet {
    /// Omit the parenthesized parameter clause for this callable.
    pub skip_args: bool,
    /// Append an attached-value clause.
    pub payable: bool,
    /// Append a version clause.
    pub init: bool,
}

/// The markers declared at the containing scope.
#[derive(Debug, Clone, Copy, PartialEq, Eq, Structural)]
pub struct ScopeMarkers {
    /// Omit the parameter clause for every callable in the scope.
    pub skip_args: bool,
    /// Instrument only publicly visible callables.
    pub only_pub: bool,
}

// ---------------------------------------------------------------------------
// Callables
// ---------------------------------------------------------------------------

/// One declared parameter of a callable.
#[derive(Debug, Clone)]
pub enum Param {
    /// The receiver, possibly declared mutable.
    Receiver { mutable: bool },
    /// A parameter bound to a simple identifier.
    Named { name: String },
    /// A parameter bound by any other pattern; not captured.
    Opaque,
}

#[verifier::ext_equal]
pub enum ParamV {
    Receiver { mutable: bool },
    Named { name: Seq<char> },
    Opaque,
}

impl View for Param {
    type V = ParamV;

    open spec fn view(&self) -> ParamV {
        match self {
            Param::Receiver { mutable } => ParamV::Receiver { mutable: *mutable },
            Param::Named { name } => ParamV::Named { name: name@ },
            Param::Opaque => ParamV::Opaque,
        }
    }
}

impl DeepView for Param {
    type V = ParamV;

    open spec fn deep_view(&self) -> ParamV {
        self@
    }
}

/// A reference to a value interpolated into a diagnostic line.
#[derive(Debug, Clone)]
pub enum ValueRef {
    /// A captured parameter, by name.
    Arg(String),
    /// The host caller-identity primitive.
    CallerIdentity,
    /// The host attached-value primitive.
    AttachedValue,
    /// The build's version string.
    BuildVersion,
}

#[verifier::ext_equal]
pub enum ValueRefV {
    Arg(Seq<char>),
    CallerIdentity,
    AttachedValue,
    BuildVersion,
}

impl View for ValueRef {
    type V = ValueRefV;

    open spec fn view(&self) -> ValueRefV {
        match self {
            ValueRef::Arg(name) => ValueRefV::Arg(name@),
            ValueRef::CallerIdentity => ValueRefV::CallerIdentity,
            ValueRef::AttachedValue => ValueRefV::AttachedValue,
            ValueRef::BuildVersion => ValueRefV::BuildVersion,
        }
    }
}

impl DeepView for ValueRef {
    type V = ValueRefV;

    open spec fn deep_view(&self) -> ValueRefV {
        self@
    }
}

/// A diagnostic-emission statement: a format template and the ordered value
/// references interpolated into it.
#[derive(Debug, Clone)]
pub struct LogStmt {
    pub fmt: String,
    pub args: Vec<ValueRef>,
}

#[verifier::ext_equal]
pub struct LogStmtV {
    pub fmt: Seq<char>,
    pub args: Seq<ValueRefV>,
}

impl View for LogStmt {
    type V = LogStmtV;

    open spec fn view(&self) -> LogStmtV {
        LogStmtV { fmt: self.fmt@, args: self.args.deep_view() }
    }
}

impl DeepView for LogStmt {
    type V = LogStmtV;

    open spec fn deep_view(&self) -> LogStmtV {
        self@
    }
}

/// A callable declaration: name, ordered parameters, visibility, resolved
/// markers, the diagnostic statements already prepended to its body
/// (outermost first), and the rest of the body, kept opaque.
#[derive(Debug, Clone)]
pub struct Callable {
    pub name: String,
    pub params: Vec<Param>,
    pub is_public: bool,
    pub markers: MarkerSet,
    pub logs: Vec<LogStmt>,
    pub body: String,
}

#[verifier::ext_equal]
pub struct CallableV {
    pub name: Seq<char>,
    pub params: Seq<ParamV>,
    pub is_public: bool,
    pub markers: MarkerSet,
    pub logs: Seq<LogStmtV>,
    pub body: Seq<char>,
}

impl View for Callable {
    type V = CallableV;

    open spec fn view(&self) -> CallableV {
        CallableV {
            name: self.name@,
            params: self.params.deep_view(),
            is_public: self.is_public,
            markers: self.markers,
            logs: self.logs.deep_view(),
            body: self.body@,
        }
    }
}

impl DeepView for Callable {
    type V = CallableV;

    open spec fn deep_view(&self) -> CallableV {
        self@
    }
}

/// An implementation block: whether it implements a named external
/// capability, and its member callables.
#[derive(Debug, Clone)]
pub struct ImplBlock {
    pub is_trait_impl: bool,
    pub methods: Vec<Callable>,
}

#[verifier::ext_equal]
pub struct ImplBlockV {
    pub is_trait_impl: bool,
    pub methods: Seq<CallableV>,
}

impl View for ImplBlock {
    type V = ImplBlockV;

    open spec fn view(&self) -> ImplBlockV {
        ImplBlockV { is_trait_impl: self.is_trait_impl, methods: self.methods.deep_view() }
    }
}

impl DeepView for ImplBlock {
    type V = ImplBlockV;

    open spec fn deep_view(&self) -> ImplBlockV {
        self@
    }
}

// ---------------------------------------------------------------------------
// Tagged unions and capability declarations
// ---------------------------------------------------------------------------

/// One variant of a tagged union: its identifier, the names of its named
/// fields in declaration order, and its attached attributes.
#[derive(Debug, Clone)]
pub struct VariantDecl {
    pub name: String,
    pub fields: Vec<String>,
    pub attrs: Vec<Attr>,
}

#[verifier::ext_equal]
pub struct VariantDeclV {
    pub name: Seq<char>,
    pub fields: Seq<Seq<char>>,
    pub attrs: Seq<AttrV>,
}

impl View for VariantDecl {
    type V = VariantDeclV;

    open spec fn view(&self) -> VariantDeclV {
        VariantDeclV {
            name: self.name@,
            fields: self.fields.deep_view(),
            attrs: self.attrs.deep_view(),
        }
    }
}

impl DeepView for VariantDecl {
    type V = VariantDeclV;

    open spec fn deep_view(&self) -> VariantDeclV {
        self@
    }
}

/// A tagged-union declaration.
#[derive(Debug, Clone)]
pub struct UnionDecl {
    pub name: String,
    pub variants: Vec<VariantDecl>,
}

#[verifier::ext_equal]
pub struct UnionDeclV {
    pub name: Seq<char>,
    pub variants: Seq<VariantDeclV>,
}

impl View for UnionDecl {
    type V = UnionDeclV;

    open spec fn view(&self) -> UnionDeclV {
        UnionDeclV { name: self.name@, variants: self.variants.deep_view() }
    }
}

impl DeepView for UnionDecl {
    type V = UnionDeclV;

    open spec fn deep_view(&self) -> UnionDeclV {
        self@
    }
}

/// A capability (trait-like) declaration: its identifier, its attached
/// attributes, and its member items, kept opaque.
#[derive(Debug, Clone)]
pub struct TraitDecl {
    pub name: String,
    pub attrs: Vec<Attr>,
    pub items: String,
}

#[verifier::ext_equal]
pub struct TraitDeclV {
    pub name: Seq<char>,
    pub attrs: Seq<AttrV>,
    pub items: Seq<char>,
}

impl View for TraitDecl {
    type V = TraitDeclV;

    open spec fn view(&self) -> TraitDeclV {
        TraitDeclV { name: self.name@, attrs: self.attrs.deep_view(), items: self.items@ }
    }
}

impl DeepView for TraitDecl {
    type V = TraitDeclV;

    open spec fn deep_view(&self) -> TraitDeclV {
        self@
    }
}

/// A parsed top-level declaration handed to a generator.
#[derive(Debug, Clone)]
pub enum Decl {
    /// An implementation block.
    Impl(ImplBlock),
    /// A free callable.
    Callable(Callable),
    /// A tagged-union declaration.
    Union(UnionDecl),
    /// A capability declaration.
    Trait(TraitDecl),
    /// Any other declaration shape, kept opaque.
    Other(String),
}

#[verifier::ext_equal]
pub enum DeclV {
    Impl(ImplBlockV),
    Callable(CallableV),
    Union(UnionDeclV),
    Trait(TraitDeclV),
    Other(Seq<char>),
}

impl View for Decl {
    type V = DeclV;

    open spec fn view(&self) -> DeclV {
        match self {
            Decl::Impl(b) => DeclV::Impl(b@),
            Decl::Callable(c) => DeclV::Callable(c@),
            Decl::Union(u) => DeclV::Union(u@),
            Decl::Trait(t) => DeclV::Trait(t@),
            Decl::Other(s) => DeclV::Other(s@),
        }
    }
}

/// A build-time fault, reported at the declaration site.
#[derive(Debug, Clone, Copy, PartialEq, Eq, Structural)]
pub enum GenError {
    /// The instrumentation generator was applied to a declaration that is
    /// neither an implementation block nor a free callable.
    ExpectedImpl,
    /// The message synthesizer was applied to a declaration that is not a
    /// tagged union.
    ExpectedUnion,
    /// The duplication generator was applied to a declaration that is not a
    /// capability declaration.
    ExpectedTrait,
    /// A union variant carries no message template.
    MissingMsgTemplate,
    /// The duplication generator found no external-capability marker.
    MissingExtMarker,
}

// ---------------------------------------------------------------------------
// Runtime values of generated code
// ---------------------------------------------------------------------------

/// A plain value carried by a union variant or bound to a parameter, as the
/// generated code would display it.
#[derive(Debug, Clone)]
pub enum FieldValue {
    UInt(u128),
    Str(String),
    Bool(bool),
}

#[verifier::ext_equal]
pub enum FieldValueV {
    UInt(u128),
    Str(Seq<char>),
    Bool(bool),
}

impl View for FieldValue {
    type V = FieldValueV;

    open spec fn view(&self) -> FieldValueV {
        match self {
            FieldValue::UInt(n) => FieldValueV::UInt(*n),
            FieldValue::Str(s) => FieldValueV::Str(s@),
            FieldValue::Bool(b) => FieldValueV::Bool(*b),
        }
    }
}

impl DeepView for FieldValue {
    type V = FieldValueV;

    open spec fn deep_view(&self) -> FieldValueV {
        self@
    }
}

/// A key–value pair of a serialized object.
#[derive(Debug, Clone)]
pub struct JsonField {
    pub key: String,
    pub value: FieldValue,
}

#[verifier::ext_equal]
pub struct JsonFieldV {
    pub key: Seq<char>,
    pub value: FieldValueV,
}

impl View for JsonField {
    type V = JsonFieldV;

    open spec fn view(&self) -> JsonFieldV {
        JsonFieldV { key: self.key@, value: self.value@ }
    }
}

impl DeepView for JsonField {
    type V = JsonFieldV;

    open spec fn deep_view(&self) -> JsonFieldV {
        self@
    }
}

/// A runtime value of a tagged union: the variant's identifier and its field
/// values in declaration order.
#[derive(Debug, Clone)]
pub struct UnionValue {
    pub variant: String,
    pub fields: Vec<FieldValue>,
}

#[verifier::ext_equal]
pub struct UnionValueV {
    pub variant: Seq<char>,
    pub fields: Seq<FieldValueV>,
}

impl View for UnionValue {
    type V = UnionValueV;

    open spec fn view(&self) -> UnionValueV {
        UnionValueV { variant: self.variant@, fields: self.fields.deep_view() }
    }
}

} // verus!
