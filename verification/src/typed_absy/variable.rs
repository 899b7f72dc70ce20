//! Typed variables.

use vstd::prelude::*;
use crate::typed_absy::identifier::{Identifier, IdentifierView};
use crate::typed_absy::types::{type_display, Type, TypeView};

verus! {

/// A variable and its type.
#[derive(Debug, PartialEq, Eq)]
pub struct Variable {
    pub id: Identifier,
    pub _type: Type,
}

pub struct VariableView {
    pub id: IdentifierView,
    pub ty: TypeView,
}

impl View for Variable {
    type V = VariableView;

    open spec fn view(&self) -> VariableView {
        VariableView { id: self.id@, ty: self._type@ }
    }
}

impl VariableView {
    /// How the variable is written: its type, then its name.
    pub open spec fn display(self) -> Seq<char> {
        type_display(self.ty) + " "@ + self.id.display()
    }
}

impl Variable {
    pub fn with_id_and_type(id: Identifier, _type: Type) -> (r: Variable)
        ensures
            r@ == (VariableView { id: id@, ty: _type@ }),
    {
        Variable { id, _type }
    }

    pub fn field_element(name: &str) -> (r: Variable)
        ensures
            r@ == (VariableView { id: IdentifierView::source(name@), ty: TypeView::FieldElement }),
    {
        Variable::with_id_and_type(Identifier::from(name), Type::FieldElement)
    }

    pub fn boolean(name: &str) -> (r: Variable)
        ensures
            r@ == (VariableView { id: IdentifierView::source(name@), ty: TypeView::Boolean }),
    {
        Variable::with_id_and_type(Identifier::from(name), Type::Boolean)
    }

    pub fn field_array(name: &str, size: usize) -> (r: Variable)
        ensures
            r@ == (VariableView {
                id: IdentifierView::source(name@),
                ty: TypeView::Array(Box::new(TypeView::FieldElement), size as nat),
            }),
    {
        Variable::array(name, Type::FieldElement, size)
    }

    pub fn array(name: &str, ty: Type, size: usize) -> (r: Variable)
        ensures
            r@ == (VariableView {
                id: IdentifierView::source(name@),
                ty: TypeView::Array(Box::new(ty@), size as nat),
            }),
    {
        Variable::with_id_and_type(Identifier::from(name), Type::array(ty, size))
    }

    pub fn struc(name: &str, ty: crate::typed_absy::types::StructType) -> (r: Variable)
        ensures
            r@ == (VariableView { id: IdentifierView::source(name@), ty: TypeView::Struct(ty@) }),
    {
        Variable::with_id_and_type(Identifier::from(name), Type::Struct(ty))
    }

    pub fn get_type(&self) -> (r: Type)
        ensures
            r@ == self@.ty,
    {
        self._type.clone()
    }

    pub fn to_string(&self) -> (r: String)
        ensures
            r@ == self@.display(),
    {
        let mut s = self._type.to_string();
        s.append(" ");
        let id = self.id.to_string();
        s.append(id.as_str());
        s
    }
}

impl Clone for Variable {
    fn clone(&self) -> (r: Self)
        ensures
            r@ == self@,
    {
        Variable { id: self.id.clone(), _type: self._type.clone() }
    }
}

} // verus!
