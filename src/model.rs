//! Documentation records and their mathematical models.

use vstd::prelude::*;

verus! {

/// What a `FieldDoc` documents.
pub struct FieldModel {
    pub name: Seq<char>,
    pub optional: bool,
    pub ty: Seq<char>,
    pub doc: Seq<Seq<char>>,
}

/// What a `ParamDoc` documents.
pub struct ParamModel {
    pub name: Seq<char>,
    pub ty: Seq<char>,
}

/// What a `MethodDoc` documents.
pub struct MethodModel {
    pub name: Seq<char>,
    pub is_instance: bool,
    pub params: Seq<ParamModel>,
    pub returns: Seq<Seq<char>>,
    pub doc: Seq<Seq<char>>,
}

/// What a `ClassDoc` documents.
pub struct ClassModel {
    pub name: Seq<char>,
    pub fields: Seq<FieldModel>,
    pub methods: Seq<MethodModel>,
}

/// A documented field: `@field name? type`, with the doc lines right above it.
#[derive(Clone, Debug)]
pub struct FieldDoc {
    pub name: String,
    pub optional: bool,
    pub ty: String,
    pub doc: Vec<String>,
}

/// One `@param name type` annotation.
#[derive(Clone, Debug)]
pub struct ParamDoc {
    pub name: String,
    pub ty: String,
}

/// A documented method, reached with `:` (instance) or `.` (static).
#[derive(Clone, Debug)]
pub struct MethodDoc {
    pub name: String,
    pub is_instance: bool,
    pub params: Vec<ParamDoc>,
    pub returns: Vec<String>,
    pub doc: Vec<String>,
}

/// A documented class with its fields and methods in source order.
#[derive(Clone, Debug)]
pub struct ClassDoc {
    pub name: String,
    pub fields: Vec<FieldDoc>,
    pub methods: Vec<MethodDoc>,
}

impl DeepView for FieldDoc {
    type V = FieldModel;

    open spec fn deep_view(&self) -> FieldModel {
        FieldModel {
            name: self.name@,
            optional: self.optional,
            ty: self.ty@,
            doc: self.doc.deep_view(),
        }
    }
}

impl DeepView for ParamDoc {
    type V = ParamModel;

    open spec fn deep_view(&self) -> ParamModel {
        ParamModel { name: self.name@, ty: self.ty@ }
    }
}

impl DeepView for MethodDoc {
    type V = MethodModel;

    open spec fn deep_view(&self) -> MethodModel {
        MethodModel {
            name: self.name@,
            is_instance: self.is_instance,
            params: self.params.deep_view(),
            returns: self.returns.deep_view(),
            doc: self.doc.deep_view(),
        }
    }
}

impl DeepView for ClassDoc {
    type V = ClassModel;

    open spec fn deep_view(&self) -> ClassModel {
        ClassModel {
            name: self.name@,
            fields: self.fields.deep_view(),
            methods: self.methods.deep_view(),
        }
    }
}

} // verus!
