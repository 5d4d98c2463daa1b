//! Parse-tree data model.
//!
//! Executable nodes hold `String` identifiers and `Vec` children; each has a
//! ghost mirror over `Seq<char>` reached through `DeepView`, which the
//! grammar (`crate::grammar`) and all contracts speak of.

use vstd::prelude::*;

verus! {

broadcast use vstd::std_specs::vec::group_vec_axioms;

/// Array bound inside `[` `]`: a numeric literal (optionally carrying one
/// trailing suffix letter, optionally parenthesised) or a reference to a
/// `#define`d constant, kept as an identifier and never resolved to a number.
#[derive(Debug, PartialEq, Eq)]
pub enum ArrayIndex {
    Numeric { digits: String, suffix: Option<char>, parenthesized: bool },
    MacroRef { name: String },
}

/// Ghost mirror of [`ArrayIndex`].
pub enum ArrayIndexView {
    Numeric { digits: Seq<char>, suffix: Option<char>, parenthesized: bool },
    MacroRef { name: Seq<char> },
}

impl DeepView for ArrayIndex {
    type V = ArrayIndexView;

    open spec fn deep_view(&self) -> ArrayIndexView {
        match self {
            ArrayIndex::Numeric { digits, suffix, parenthesized } => ArrayIndexView::Numeric {
                digits: digits@,
                suffix: *suffix,
                parenthesized: *parenthesized,
            },
            ArrayIndex::MacroRef { name } => ArrayIndexView::MacroRef { name: name@ },
        }
    }
}

/// Right-hand side of a typedef: a plain alias, an array of a plain element
/// type, or a struct/union definition with an optional tag and its fields.
#[derive(Debug, PartialEq, Eq)]
pub enum TypeDescriptor {
    SimpleRef { name: String },
    ArrayOf { element_name: String, index: ArrayIndex },
    StructDef { tag: Option<String>, fields: Vec<FieldDecl> },
    UnionDef { tag: Option<String>, fields: Vec<FieldDecl> },
}

/// One field of a struct/union body; its type may itself be a nested
/// struct/union definition.
#[derive(Debug, PartialEq, Eq)]
pub struct FieldDecl {
    pub field_type: TypeDescriptor,
    pub field_name: String,
    pub array_suffix: Option<ArrayIndex>,
}

/// Ghost mirror of [`TypeDescriptor`].
pub enum TypeDescriptorView {
    SimpleRef { name: Seq<char> },
    ArrayOf { element_name: Seq<char>, index: ArrayIndexView },
    StructDef { tag: Option<Seq<char>>, fields: Seq<FieldDeclView> },
    UnionDef { tag: Option<Seq<char>>, fields: Seq<FieldDeclView> },
}

/// Ghost mirror of [`FieldDecl`].
pub struct FieldDeclView {
    pub field_type: TypeDescriptorView,
    pub field_name: Seq<char>,
    pub array_suffix: Option<ArrayIndexView>,
}

impl TypeDescriptorView {
    /// The classification rule: a typedef is complex exactly when its
    /// right-hand side is directly a struct or union definition.
    pub open spec fn is_complex(self) -> bool {
        match self {
            TypeDescriptorView::StructDef { .. } => true,
            TypeDescriptorView::UnionDef { .. } => true,
            _ => false,
        }
    }
}

/// Ghost mirror of a [`TypeDescriptor`], defined together with
/// [`field_decl_view`] and [`fields_view_from`] by recursion over the tree.
pub open spec fn type_descriptor_view(t: TypeDescriptor) -> TypeDescriptorView
    decreases t, 1int,
{
    match t {
        TypeDescriptor::SimpleRef { name } => TypeDescriptorView::SimpleRef { name: name@ },
        TypeDescriptor::ArrayOf { element_name, index } => TypeDescriptorView::ArrayOf {
            element_name: element_name@,
            index: index.deep_view(),
        },
        TypeDescriptor::StructDef { tag, fields } => TypeDescriptorView::StructDef {
            tag: tag.deep_view(),
            fields: fields_view_from(fields, 0),
        },
        TypeDescriptor::UnionDef { tag, fields } => TypeDescriptorView::UnionDef {
            tag: tag.deep_view(),
            fields: fields_view_from(fields, 0),
        },
    }
}

/// Ghost mirrors of the fields of `fields` from position `k` on.
pub open spec fn fields_view_from(fields: Vec<FieldDecl>, k: int) -> Seq<FieldDeclView>
    decreases fields, fields.len() - k,
{
    if 0 <= k < fields.len() {
        seq![field_decl_view(fields[k])] + fields_view_from(fields, k + 1)
    } else {
        Seq::empty()
    }
}

/// Ghost mirror of a [`FieldDecl`].
pub open spec fn field_decl_view(f: FieldDecl) -> FieldDeclView
    decreases f, 0int,
{
    FieldDeclView {
        field_type: type_descriptor_view(f.field_type),
        field_name: f.field_name@,
        array_suffix: f.array_suffix.deep_view(),
    }
}

/// `fields_view_from` mirrors the elements one for one.
pub proof fn lemma_fields_view_from(fields: Vec<FieldDecl>, k: int)
    requires
        0 <= k <= fields.len(),
    ensures
        fields_view_from(fields, k).len() == fields.len() - k,
        forall|j: int|
            0 <= j < fields.len() - k ==> fields_view_from(fields, k)[j] == field_decl_view(
                fields[k + j],
            ),
    decreases fields.len() - k,
{
    if k < fields.len() {
        lemma_fields_view_from(fields, k + 1);
        assert forall|j: int| 0 <= j < fields.len() - k implies fields_view_from(fields, k)[j]
            == field_decl_view(fields[k + j]) by {
            if j > 0 {
                assert(fields_view_from(fields, k)[j] == fields_view_from(fields, k + 1)[j - 1]);
            }
        }
    }
}

/// A one-element vector mirrors to a one-element sequence.
pub proof fn lemma_fields_view_singleton(v: Vec<FieldDecl>, f: FieldDecl)
    requires
        v@ == seq![f],
    ensures
        fields_view_from(v, 0) == seq![field_decl_view(f)],
{
    lemma_fields_view_from(v, 0);
    assert(fields_view_from(v, 0) =~= seq![field_decl_view(f)]);
}

/// Inserting at the front mirrors to prepending the element's view.
pub proof fn lemma_fields_view_insert_front(v1: Vec<FieldDecl>, v2: Vec<FieldDecl>, f: FieldDecl)
    requires
        v2@ == v1@.insert(0, f),
    ensures
        fields_view_from(v2, 0) == seq![field_decl_view(f)] + fields_view_from(v1, 0),
{
    lemma_fields_view_from(v1, 0);
    lemma_fields_view_from(v2, 0);
    assert(fields_view_from(v2, 0) =~= seq![field_decl_view(f)] + fields_view_from(v1, 0));
}

impl DeepView for TypeDescriptor {
    type V = TypeDescriptorView;

    open spec fn deep_view(&self) -> TypeDescriptorView {
        type_descriptor_view(*self)
    }
}

impl DeepView for FieldDecl {
    type V = FieldDeclView;

    open spec fn deep_view(&self) -> FieldDeclView {
        field_decl_view(*self)
    }
}

/// A parsed `typedef`: exactly one right-hand type and one introduced name.
#[derive(Debug, PartialEq, Eq)]
pub struct TypedefNode {
    pub old_type: TypeDescriptor,
    pub new_name: String,
}

/// Ghost mirror of [`TypedefNode`].
pub struct TypedefNodeView {
    pub old_type: TypeDescriptorView,
    pub new_name: Seq<char>,
}

impl DeepView for TypedefNode {
    type V = TypedefNodeView;

    open spec fn deep_view(&self) -> TypedefNodeView {
        TypedefNodeView {
            old_type: self.old_type.deep_view(),
            new_name: self.new_name@,
        }
    }
}

/// One top-level item of a header file. Comments carry no payload: they are
/// recognised and discarded.
#[derive(Debug, PartialEq, Eq)]
pub enum ParseNode {
    Define { name: String, value: Option<String> },
    Line { number: String, filename: String },
    Pragma,
    BlockWrapper,
    Typedef(TypedefNode),
    Comment,
}

/// Ghost mirror of [`ParseNode`].
pub enum ParseNodeView {
    Define { name: Seq<char>, value: Option<Seq<char>> },
    Line { number: Seq<char>, filename: Seq<char> },
    Pragma,
    BlockWrapper,
    Typedef(TypedefNodeView),
    Comment,
}

impl DeepView for ParseNode {
    type V = ParseNodeView;

    open spec fn deep_view(&self) -> ParseNodeView {
        match self {
            ParseNode::Define { name, value } => ParseNodeView::Define {
                name: name@,
                value: value.deep_view(),
            },
            ParseNode::Line { number, filename } => ParseNodeView::Line {
                number: number@,
                filename: filename@,
            },
            ParseNode::Pragma => ParseNodeView::Pragma,
            ParseNode::BlockWrapper => ParseNodeView::BlockWrapper,
            ParseNode::Typedef(t) => ParseNodeView::Typedef(t.deep_view()),
            ParseNode::Comment => ParseNodeView::Comment,
        }
    }
}

/// A failed parse: the position (in characters) where matching gave up and a
/// short description of what was expected there.
#[derive(Debug, PartialEq, Eq)]
pub struct ParseError {
    pub pos: usize,
    pub expected: String,
}

} // verus!
