//! Data model of the generator: the record-type input handed over by the
//! host parser, the synthesized output fragment, and the spec-level image
//! of both that all contracts are stated over.

use vstd::prelude::*;

verus! {

// ---------------------------------------------------------------------
// Spec-level model
//
// Every executable type below has a mathematical image built from
// `Seq<char>` (for identifiers and carried source text) and `Seq` (for
// ordered lists); contracts and laws speak of these.
// ---------------------------------------------------------------------

/// Image of one segment of a named path type: its identifier and, when an
/// angle-bracketed argument list is present, the arguments' source texts.
pub struct SpecSegment {
    pub name: Seq<char>,
    pub args: Option<Seq<Seq<char>>>,
}

/// Image of a declared-type descriptor.
pub enum SpecType {
    /// A named path, one or more segments.
    Path(Seq<SpecSegment>),
    /// Any other type shape, carried as its source text.
    Other(Seq<char>),
}

/// Image of one nested meta item inside a grouping attribute.
pub enum SpecMeta {
    /// An item whose leading token is an identifier.
    Named(Seq<char>),
    /// Any other nested content (a literal, punctuation, ...).
    Other,
}

/// Image of one attribute on a field.
pub enum SpecAttr {
    /// A grouping attribute wrapping a nested list of meta items.
    Group(Seq<SpecMeta>),
    /// Any other attribute form; never carries directives.
    Other,
}

/// Image of a field definition.
pub struct SpecField {
    pub name: Seq<char>,
    pub ty: SpecType,
    pub public: bool,
    pub attrs: Seq<SpecAttr>,
}

/// Image of the body shape of a type definition.
pub enum SpecShape {
    /// A plain record with named fields, in declaration order.
    NamedFields(Seq<SpecField>),
    /// Every other shape: tuple-style fields, unit, enum, union.
    Unsupported,
}

/// Image of a parsed type definition.
pub struct SpecTypeDef {
    pub name: Seq<char>,
    pub data: SpecShape,
}

/// Image of one parameter of a generated function.
pub struct SpecParam {
    pub name: Seq<char>,
    pub ty: SpecType,
}

/// Image of a field initializer expression in a constructed value.
pub enum SpecInit {
    /// The parameter of the same name.
    FromParam(Seq<char>),
    /// A call to the field type's default-value constructor.
    DefaultCall,
}

/// Image of one field initializer in a constructed value.
pub struct SpecFieldInit {
    pub field: Seq<char>,
    pub init: SpecInit,
}

/// Image of a generated function's return-type descriptor.
pub enum SpecReturn {
    /// The record type itself, by name.
    Record(Seq<char>),
    /// The field's declared type, by value.
    Value(SpecType),
    /// A borrowed reference to the field's declared type.
    Ref(SpecType),
    /// A read-only view over the element type (carried as source text).
    RefSlice(Seq<char>),
    /// A mutable reference to the field's declared type.
    RefMut(SpecType),
    /// No return value.
    Unit,
}

/// Image of a generated function's body.
pub enum SpecBody {
    /// Construct the record from the listed field initializers.
    Construct(Seq<SpecFieldInit>),
    /// Return the field's value (a duplication).
    ReadField(Seq<char>),
    /// Return a borrowed reference to the field.
    BorrowField(Seq<char>),
    /// Return a read-only view over the field's contents.
    SliceField(Seq<char>),
    /// Assign the single parameter into the field.
    AssignField(Seq<char>),
    /// Return a mutable reference to the field.
    MutBorrowField(Seq<char>),
}

/// Image of one generated function.
pub struct SpecFunction {
    pub name: Seq<char>,
    pub params: Seq<SpecParam>,
    pub ret: SpecReturn,
    pub body: SpecBody,
}

/// Image of a generated fragment: the ordered functions scoped to one
/// record type's implementation.
pub struct SpecFragment {
    pub record_name: Seq<char>,
    pub functions: Seq<SpecFunction>,
}

// ---------------------------------------------------------------------
// Executable model
// ---------------------------------------------------------------------

/// A generic argument of a path segment, carried through synthesis
/// verbatim as its source text; the generator never looks inside it.
#[derive(Debug, PartialEq, Eq)]
pub struct GenericArg {
    pub text: String,
}

/// One segment of a named path type: an identifier plus an optional
/// angle-bracketed argument list.
#[derive(Debug, PartialEq, Eq)]
pub struct PathSegment {
    pub name: String,
    pub args: Option<Vec<GenericArg>>,
}

/// A field's declared-type descriptor.
#[derive(Debug, PartialEq, Eq)]
pub enum TypeDesc {
    /// A named path of one or more segments.
    Path(Vec<PathSegment>),
    /// Any other type shape, carried as its source text.
    Other(String),
}

/// One nested meta item inside a grouping attribute.
#[derive(Debug, PartialEq, Eq)]
pub enum MetaItem {
    /// A nested item whose leading token is an identifier.
    Named(String),
    /// Any other nested content; never names a directive.
    Other,
}

/// One attribute on a field, as far as the generator reads it.
#[derive(Debug, PartialEq, Eq)]
pub enum AttrEntry {
    /// A grouping attribute wrapping a nested list of meta items.
    Group(Vec<MetaItem>),
    /// Any other attribute form; never carries directives.
    Other,
}

/// One named field of a record type, immutable input to the synthesizers.
#[derive(Debug, PartialEq, Eq)]
pub struct FieldDef {
    pub name: String,
    pub ty: TypeDesc,
    /// True when the field is declared public in the host language.
    pub public: bool,
    pub attrs: Vec<AttrEntry>,
}

/// The body shape of a parsed type definition.
#[derive(Debug, PartialEq, Eq)]
pub enum DataShape {
    /// A plain record with named fields, in declaration order.
    NamedFields(Vec<FieldDef>),
    /// Every other shape: tuple-style fields, unit, enum, union.
    Unsupported,
}

/// A parsed type definition, as handed over by the host parser.
#[derive(Debug, PartialEq, Eq)]
pub struct TypeDef {
    pub name: String,
    pub data: DataShape,
}

/// One parameter of a generated function.
#[derive(Debug, PartialEq, Eq)]
pub struct Param {
    pub name: String,
    pub ty: TypeDesc,
}

/// A field initializer expression in a constructed value.
#[derive(Debug, PartialEq, Eq)]
pub enum InitExpr {
    /// The parameter of the same name.
    FromParam(String),
    /// A call to the field type's default-value constructor.
    DefaultCall,
}

/// One field initializer in a constructed value.
#[derive(Debug, PartialEq, Eq)]
pub struct FieldInit {
    pub field: String,
    pub init: InitExpr,
}

/// A generated function's return-type descriptor.
#[derive(Debug, PartialEq, Eq)]
pub enum ReturnDesc {
    /// The record type itself, by name.
    Record(String),
    /// The field's declared type, by value.
    Value(TypeDesc),
    /// A borrowed reference to the field's declared type.
    Ref(TypeDesc),
    /// A read-only view over the element type (carried as source text).
    RefSlice(GenericArg),
    /// A mutable reference to the field's declared type.
    RefMut(TypeDesc),
    /// No return value.
    Unit,
}

/// A generated function's body.
#[derive(Debug, PartialEq, Eq)]
pub enum BodyDesc {
    /// Construct the record from the listed field initializers.
    Construct(Vec<FieldInit>),
    /// Return the field's value (a duplication).
    ReadField(String),
    /// Return a borrowed reference to the field.
    BorrowField(String),
    /// Return a read-only view over the field's contents.
    SliceField(String),
    /// Assign the single parameter into the field.
    AssignField(String),
    /// Return a mutable reference to the field.
    MutBorrowField(String),
}

/// One generated function: the unit of output.
#[derive(Debug, PartialEq, Eq)]
pub struct GeneratedFunction {
    pub name: String,
    pub params: Vec<Param>,
    pub ret: ReturnDesc,
    pub body: BodyDesc,
}

/// A generated fragment: the ordered functions scoped to one record
/// type's implementation.
#[derive(Debug, PartialEq, Eq)]
pub struct Fragment {
    pub record_name: String,
    pub functions: Vec<GeneratedFunction>,
}

// ---------------------------------------------------------------------
// Views
// ---------------------------------------------------------------------

impl View for GenericArg {
    type V = Seq<char>;

    open spec fn view(&self) -> Seq<char> {
        self.text@
    }
}

impl View for PathSegment {
    type V = SpecSegment;

    open spec fn view(&self) -> SpecSegment {
        SpecSegment {
            name: self.name@,
            args: match self.args {
                Some(v) => Some(v@.map_values(|a: GenericArg| a@)),
                None => None,
            },
        }
    }
}

impl View for TypeDesc {
    type V = SpecType;

    open spec fn view(&self) -> SpecType {
        match self {
            TypeDesc::Path(segs) => SpecType::Path(segs@.map_values(|s: PathSegment| s@)),
            TypeDesc::Other(t) => SpecType::Other(t@),
        }
    }
}

impl View for MetaItem {
    type V = SpecMeta;

    open spec fn view(&self) -> SpecMeta {
        match self {
            MetaItem::Named(n) => SpecMeta::Named(n@),
            MetaItem::Other => SpecMeta::Other,
        }
    }
}

impl View for AttrEntry {
    type V = SpecAttr;

    open spec fn view(&self) -> SpecAttr {
        match self {
            AttrEntry::Group(items) => SpecAttr::Group(items@.map_values(|m: MetaItem| m@)),
            AttrEntry::Other => SpecAttr::Other,
        }
    }
}

impl View for FieldDef {
    type V = SpecField;

    open spec fn view(&self) -> SpecField {
        SpecField {
            name: self.name@,
            ty: self.ty@,
            public: self.public,
            attrs: self.attrs@.map_values(|a: AttrEntry| a@),
        }
    }
}

impl View for DataShape {
    type V = SpecShape;

    open spec fn view(&self) -> SpecShape {
        match self {
            DataShape::NamedFields(fields) => SpecShape::NamedFields(
                fields@.map_values(|f: FieldDef| f@),
            ),
            DataShape::Unsupported => SpecShape::Unsupported,
        }
    }
}

impl View for TypeDef {
    type V = SpecTypeDef;

    open spec fn view(&self) -> SpecTypeDef {
        SpecTypeDef { name: self.name@, data: self.data@ }
    }
}

impl View for Param {
    type V = SpecParam;

    open spec fn view(&self) -> SpecParam {
        SpecParam { name: self.name@, ty: self.ty@ }
    }
}

impl View for InitExpr {
    type V = SpecInit;

    open spec fn view(&self) -> SpecInit {
        match self {
            InitExpr::FromParam(n) => SpecInit::FromParam(n@),
            InitExpr::DefaultCall => SpecInit::DefaultCall,
        }
    }
}

impl View for FieldInit {
    type V = SpecFieldInit;

    open spec fn view(&self) -> SpecFieldInit {
        SpecFieldInit { field: self.field@, init: self.init@ }
    }
}

impl View for ReturnDesc {
    type V = SpecReturn;

    open spec fn view(&self) -> SpecReturn {
        match self {
            ReturnDesc::Record(n) => SpecReturn::Record(n@),
            ReturnDesc::Value(t) => SpecReturn::Value(t@),
            ReturnDesc::Ref(t) => SpecReturn::Ref(t@),
            ReturnDesc::RefSlice(a) => SpecReturn::RefSlice(a@),
            ReturnDesc::RefMut(t) => SpecReturn::RefMut(t@),
            ReturnDesc::Unit => SpecReturn::Unit,
        }
    }
}

impl View for BodyDesc {
    type V = SpecBody;

    open spec fn view(&self) -> SpecBody {
        match self {
            BodyDesc::Construct(inits) => SpecBody::Construct(
                inits@.map_values(|i: FieldInit| i@),
            ),
            BodyDesc::ReadField(n) => SpecBody::ReadField(n@),
            BodyDesc::BorrowField(n) => SpecBody::BorrowField(n@),
            BodyDesc::SliceField(n) => SpecBody::SliceField(n@),
            BodyDesc::AssignField(n) => SpecBody::AssignField(n@),
            BodyDesc::MutBorrowField(n) => SpecBody::MutBorrowField(n@),
        }
    }
}

impl View for GeneratedFunction {
    type V = SpecFunction;

    open spec fn view(&self) -> SpecFunction {
        SpecFunction {
            name: self.name@,
            params: self.params@.map_values(|p: Param| p@),
            ret: self.ret@,
            body: self.body@,
        }
    }
}

impl View for Fragment {
    type V = SpecFragment;

    open spec fn view(&self) -> SpecFragment {
        SpecFragment {
            record_name: self.record_name@,
            functions: self.functions@.map_values(|g: GeneratedFunction| g@),
        }
    }
}

// ---------------------------------------------------------------------
// Cloning for the pieces that synthesis copies out of its input
// ---------------------------------------------------------------------

impl Clone for GenericArg {
    /// Cloning keeps the carried source text.
    fn clone(&self) -> (r: Self)
        ensures
            r@ == self@,
    {
        GenericArg { text: self.text.clone() }
    }
}

impl Clone for PathSegment {
    /// Cloning keeps the segment's image.
    fn clone(&self) -> (r: Self)
        ensures
            r@ == self@,
    {
        let args: Option<Vec<GenericArg>> = match &self.args {
            Some(v) => {
                let mut out: Vec<GenericArg> = Vec::new();
                let mut i: usize = 0;
                while i < v.len()
                    invariant
                        i <= v.len(),
                        out@.len() == i,
                        forall|j: int| 0 <= j < i ==> out@[j]@ == v@[j]@,
                    decreases v.len() - i,
                {
                    out.push(v[i].clone());
                    i = i + 1;
                }
                proof {
                    assert(out@.map_values(|a: GenericArg| a@) =~= v@.map_values(
                        |a: GenericArg| a@,
                    ));
                }
                Some(out)
            },
            None => None,
        };
        PathSegment { name: self.name.clone(), args }
    }
}

impl Clone for TypeDesc {
    /// Cloning keeps the descriptor's image.
    fn clone(&self) -> (r: Self)
        ensures
            r@ == self@,
    {
        match self {
            TypeDesc::Path(segs) => {
                let mut out: Vec<PathSegment> = Vec::new();
                let mut i: usize = 0;
                while i < segs.len()
                    invariant
                        i <= segs.len(),
                        out@.len() == i,
                        forall|j: int| 0 <= j < i ==> out@[j]@ == segs@[j]@,
                    decreases segs.len() - i,
                {
                    out.push(segs[i].clone());
                    i = i + 1;
                }
                proof {
                    assert(out@.map_values(|s: PathSegment| s@) =~= segs@.map_values(
                        |s: PathSegment| s@,
                    ));
                }
                TypeDesc::Path(out)
            },
            TypeDesc::Other(t) => TypeDesc::Other(t.clone()),
        }
    }
}

} // verus!
