//! Resolving what the source declares: types, variables, parameters,
//! signatures and struct definitions.

use vstd::prelude::*;
use crate::absy::types::{UnresolvedSignature, UnresolvedType, UnresolvedTypeNode};
use crate::absy::{ParameterNode, StructDefinitionFieldNode, StructDefinitionNode, VariableNode};
use crate::parser::Position;
use crate::semantics::messages::{
    error_at, list_result_view, make_error, one_error, push_error, result_view, text1,
};
use crate::semantics::scope::Checker;
use crate::semantics::{
    ErrorInner, ErrorInnerView, TypeMap, TypesView, declared_type, inner_errors_view,
};
use crate::typed_absy::identifier::{Identifier, IdentifierView};
use crate::typed_absy::parameter::{Parameter, ParameterView};
use crate::typed_absy::types::{
    ArrayType, Signature, SignatureView, StructLocationView, StructMember, StructMemberView,
    StructType, StructTypeView, Type, TypeView, members_view, types_view,
};
use crate::typed_absy::variable::{Variable, VariableView};

verus! {

/// The type that the source names, or why there is none: a name that the
/// module knows no type under.
pub open spec fn resolved_type(ty: &UnresolvedTypeNode, module: Seq<char>, types: TypesView) -> Result<
    TypeView,
    ErrorInnerView,
>
    decreases ty,
{
    match ty.value {
        UnresolvedType::FieldElement => Ok(TypeView::FieldElement),
        UnresolvedType::Boolean => Ok(TypeView::Boolean),
        UnresolvedType::Uint(w) => Ok(TypeView::Uint(w)),
        UnresolvedType::Array(t, size) => match resolved_type(&*t, module, types) {
            Ok(x) => Ok(TypeView::Array(Box::new(x), size as nat)),
            Err(e) => Err(e),
        },
        UnresolvedType::User(id) => match declared_type(types, module, id@) {
            Some(t) => Ok(t),
            None => Err(error_at((ty.start, ty.end), "Undefined type "@ + id@)),
        },
    }
}

/// The types that the first `n` entries of a list name, and the errors of
/// those that name none, both in order.
pub open spec fn resolved_prefix(
    list: &Vec<UnresolvedTypeNode>,
    n: nat,
    module: Seq<char>,
    types: TypesView,
) -> (Seq<TypeView>, Seq<ErrorInnerView>)
    decreases n,
{
    if n == 0 || n > list.len() {
        (Seq::empty(), Seq::empty())
    } else {
        let before = resolved_prefix(list, (n - 1) as nat, module, types);
        match resolved_type(&list[n - 1], module, types) {
            Ok(t) => (before.0.push(t), before.1),
            Err(e) => (before.0, before.1.push(e)),
        }
    }
}

/// The signature that the source names, or the errors of the types that
/// name none, those of the inputs first.
pub open spec fn resolved_signature(
    signature: &UnresolvedSignature,
    module: Seq<char>,
    types: TypesView,
) -> Result<SignatureView, Seq<ErrorInnerView>> {
    let inputs = resolved_prefix(&signature.inputs, signature.inputs.len() as nat, module, types);
    let outputs = resolved_prefix(
        &signature.outputs,
        signature.outputs.len() as nat,
        module,
        types,
    );
    if inputs.1.len() + outputs.1.len() > 0 {
        Err(inputs.1 + outputs.1)
    } else {
        Ok(SignatureView { inputs: inputs.0, outputs: outputs.0 })
    }
}

/// The variable that the source declares.
pub open spec fn resolved_variable(v: &VariableNode, module: Seq<char>, types: TypesView) -> Result<
    VariableView,
    Seq<ErrorInnerView>,
> {
    match resolved_type(&v.value._type, module, types) {
        Ok(ty) => Ok(VariableView { id: IdentifierView::source(v.value.id@), ty }),
        Err(e) => Err(seq![e]),
    }
}

/// The parameter that the source declares.
pub open spec fn resolved_parameter(p: &ParameterNode, module: Seq<char>, types: TypesView) -> Result<
    ParameterView,
    Seq<ErrorInnerView>,
> {
    match resolved_variable(&p.value.id, module, types) {
        Ok(id) => Ok(ParameterView { id, private: p.value.private }),
        Err(e) => Err(e),
    }
}

/// Whether one of the members is called `id`.
pub open spec fn has_member_named(members: Seq<StructMemberView>, id: Seq<char>) -> bool {
    exists|i: int| 0 <= i < members.len() && (#[trigger] members[i]).id == id
}

/// The members that the first `n` fields of a struct definition declare,
/// and what is wrong with the others: a type that is not known, or a name
/// that an earlier member has.
pub open spec fn resolved_fields(
    fields: &Vec<StructDefinitionFieldNode>,
    n: nat,
    pos: (Position, Position),
    module: Seq<char>,
    types: TypesView,
) -> (Seq<StructMemberView>, Seq<ErrorInnerView>)
    decreases n,
{
    if n == 0 || n > fields.len() {
        (Seq::empty(), Seq::empty())
    } else {
        let before = resolved_fields(fields, (n - 1) as nat, pos, module, types);
        let field = fields[n - 1].value;
        match resolved_type(&field.ty, module, types) {
            Ok(t) => if has_member_named(before.0, field.id@) {
                (
                    before.0,
                    before.1.push(
                        error_at(pos, "Duplicate key "@ + field.id@ + " in struct definition"@),
                    ),
                )
            } else {
                (before.0.push(StructMemberView { id: field.id@, ty: t }), before.1)
            },
            Err(e) => (before.0, before.1.push(e)),
        }
    }
}

/// The struct type that a definition declares under `id` in `module`.
pub open spec fn resolved_struct(
    id: Seq<char>,
    s: &StructDefinitionNode,
    module: Seq<char>,
    types: TypesView,
) -> Result<TypeView, Seq<ErrorInnerView>> {
    let fields = resolved_fields(
        &s.value.fields,
        s.value.fields.len() as nat,
        (s.start, s.end),
        module,
        types,
    );
    if fields.1.len() > 0 {
        Err(fields.1)
    } else {
        Ok(
            TypeView::Struct(
                StructTypeView {
                    canonical_location: StructLocationView { module, name: id },
                    location: None,
                    members: fields.0,
                },
            ),
        )
    }
}

impl Checker {
    /// Resolves a type.
    pub fn check_type(&self, ty: UnresolvedTypeNode, module_id: &String, types: &TypeMap) -> (r:
        Result<Type, ErrorInner>)
        ensures
            result_view(r) == resolved_type(&ty, module_id@, types@),
        decreases ty,
    {
        let pos = ty.pos();
        match ty.value {
            UnresolvedType::FieldElement => Ok(Type::FieldElement),
            UnresolvedType::Boolean => Ok(Type::Boolean),
            UnresolvedType::Uint(bitwidth) => Ok(Type::uint(bitwidth)),
            UnresolvedType::Array(t, size) => {
                match self.check_type(*t, module_id, types) {
                    Ok(inner) => Ok(Type::Array(ArrayType::new(inner, size))),
                    Err(e) => Err(e),
                }
            },
            UnresolvedType::User(id) => {
                let found = match types.get(module_id.as_str()) {
                    Some(known) => match known.get(id.as_str()) {
                        Some(t) => Some(t.clone()),
                        None => None,
                    },
                    None => None,
                };
                match found {
                    Some(t) => Ok(t),
                    None => {
                        let mut message = String::from_str("Undefined type ");
                        message.append(id.as_str());
                        Err(make_error(pos, message))
                    },
                }
            },
        }
    }

    /// Resolves the type of a variable.
    pub fn check_variable(&self, v: VariableNode, module_id: &String, types: &TypeMap) -> (r:
        Result<Variable, Vec<ErrorInner>>)
        ensures
            list_result_view(r) == resolved_variable(&v, module_id@, types@),
    {
        let id = Identifier::from(v.value.id.as_str());
        match self.check_type(v.value._type, module_id, types) {
            Ok(ty) => Ok(Variable::with_id_and_type(id, ty)),
            Err(e) => Err(one_error(e)),
        }
    }

    /// Resolves the type of a parameter.
    pub fn check_parameter(&self, p: ParameterNode, module_id: &String, types: &TypeMap) -> (r:
        Result<Parameter, Vec<ErrorInner>>)
        ensures
            list_result_view(r) == resolved_parameter(&p, module_id@, types@),
    {
        let private = p.value.private;
        match self.check_variable(p.value.id, module_id, types) {
            Ok(var) => Ok(Parameter { id: var, private }),
            Err(e) => Err(e),
        }
    }

    /// Resolves every type of a list; the errors of those that cannot be
    /// resolved go to `errors`.
    fn check_types(
        &self,
        list: Vec<UnresolvedTypeNode>,
        module_id: &String,
        types: &TypeMap,
        errors: &mut Vec<ErrorInner>,
    ) -> (r: Vec<Type>)
        ensures
            types_view(r@) == resolved_prefix(&list, list.len() as nat, module_id@, types@).0,
            inner_errors_view(final(errors)@) == inner_errors_view(old(errors)@) + resolved_prefix(
                &list,
                list.len() as nat,
                module_id@,
                types@,
            ).1,
    {
        let mut out: Vec<Type> = Vec::new();
        let ghost all = list;
        let ghost start = inner_errors_view(errors@);
        assert(types_view(out@) =~= Seq::<TypeView>::empty());
        assert(start + Seq::<ErrorInnerView>::empty() =~= start);
        for t in it: list
            invariant
                it.seq() == all@,
                types_view(out@) == resolved_prefix(&all, it.index() as nat, module_id@, types@).0,
                inner_errors_view(errors@) == start + resolved_prefix(
                    &all,
                    it.index() as nat,
                    module_id@,
                    types@,
                ).1,
        {
            let ghost before = resolved_prefix(&all, it.index() as nat, module_id@, types@);
            let ghost old_out = types_view(out@);
            assert(t == all[it.index() as int]);
            match self.check_type(t, module_id, types) {
                Ok(t) => {
                    out.push(t);
                    assert(types_view(out@) =~= old_out.push(t@));
                },
                Err(e) => {
                    push_error(errors, e);
                    assert(start + before.1.push(e@) =~= (start + before.1).push(e@));
                },
            }
        }
        out
    }

    /// Resolves a signature.
    pub fn check_signature(
        &self,
        signature: UnresolvedSignature,
        module_id: &String,
        types: &TypeMap,
    ) -> (r: Result<Signature, Vec<ErrorInner>>)
        ensures
            list_result_view(r) == resolved_signature(&signature, module_id@, types@),
    {
        let mut errors: Vec<ErrorInner> = Vec::new();
        assert(inner_errors_view(errors@) =~= Seq::<ErrorInnerView>::empty());
        let inputs = self.check_types(signature.inputs, module_id, types, &mut errors);
        let outputs = self.check_types(signature.outputs, module_id, types, &mut errors);
        proof {
            let a = resolved_prefix(
                &signature.inputs,
                signature.inputs.len() as nat,
                module_id@,
                types@,
            ).1;
            let b = resolved_prefix(
                &signature.outputs,
                signature.outputs.len() as nat,
                module_id@,
                types@,
            ).1;
            assert(Seq::<ErrorInnerView>::empty() + a + b =~= a + b);
        }
        if errors.len() > 0 {
            return Err(errors);
        }
        Ok(Signature { inputs, outputs })
    }

    /// Resolves a struct definition declared under `id`.
    pub fn check_struct_type_declaration(
        &self,
        id: String,
        s: StructDefinitionNode,
        module_id: &String,
        types: &TypeMap,
    ) -> (r: Result<Type, Vec<ErrorInner>>)
        ensures
            list_result_view(r) == resolved_struct(id@, &s, module_id@, types@),
    {
        let pos = s.pos();
        let ghost node = s;
        let ghost all = s.value.fields;
        let definition = s.value;
        let mut errors: Vec<ErrorInner> = Vec::new();
        let mut fields: Vec<StructMember> = Vec::new();
        assert(inner_errors_view(errors@) =~= Seq::<ErrorInnerView>::empty());
        assert(members_view(fields@) =~= Seq::<StructMemberView>::empty());
        for field in it: definition.fields
            invariant
                it.seq() == all@,
                members_view(fields@) == resolved_fields(
                    &all,
                    it.index() as nat,
                    pos,
                    module_id@,
                    types@,
                ).0,
                inner_errors_view(errors@) == resolved_fields(
                    &all,
                    it.index() as nat,
                    pos,
                    module_id@,
                    types@,
                ).1,
        {
            let ghost before = resolved_fields(&all, it.index() as nat, pos, module_id@, types@);
            let ghost old_fields = members_view(fields@);
            assert(field == all[it.index() as int]);
            let member_id = field.value.id;
            match self.check_type(field.value.ty, module_id, types) {
                Ok(t) => {
                    let mut k: usize = 0;
                    let mut seen = false;
                    while k < fields.len() && !seen
                        invariant
                            k <= fields.len(),
                            old_fields == members_view(fields@),
                            seen ==> has_member_named(old_fields, member_id@),
                            !seen ==> forall|j: int|
                                0 <= j < k ==> (#[trigger] old_fields[j]).id != member_id@,
                        decreases fields.len() - k + if seen {
                            0int
                        } else {
                            1int
                        },
                    {
                        if fields[k].id == member_id {
                            assert(old_fields[k as int].id == member_id@);
                            seen = true;
                        } else {
                            k += 1;
                        }
                    }
                    if seen {
                        push_error(
                            &mut errors,
                            make_error(
                                pos,
                                text1("Duplicate key ", member_id.as_str(), " in struct definition"),
                            ),
                        );
                    } else {
                        let member = StructMember::new(member_id, t);
                        fields.push(member);
                        assert(members_view(fields@) =~= old_fields.push(member@));
                    }
                },
                Err(e) => {
                    push_error(&mut errors, e);
                },
            }
        }
        if errors.len() > 0 {
            return Err(errors);
        }
        Ok(Type::Struct(StructType::new(module_id.clone(), id, fields)))
    }
}

} // verus!
