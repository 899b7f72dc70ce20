//! The interface of a program as a JSON value, and back.
//!
//! A type is written with the key `type` and, for arrays and structs, the
//! key `components`:
//!
//! ```text
//! {"type": "field"}
//! {"type": "array", "components": {"size": 2, "type": "field"}}
//! {"type": "struct", "components": {"name": "Foo", "members": [{"name": "a", "type": "field"}]}}
//! ```
//!
//! An input has the keys `name` and `public` before those of its type. Of
//! a struct type the name under which it was declared is written; the
//! module is not.

use vstd::prelude::*;
use crate::collections::lemma_named_position_is;
use crate::json::{Json, JsonView, entries_model, find_entry, list_model, value_at};
use crate::text::str_eq;
use crate::typed_absy::abi::{Abi, AbiInput, AbiInputView, AbiView};
use crate::typed_absy::types::{
    ArrayType, StructLocation, StructLocationView, StructMember, StructMemberView, StructType,
    StructTypeView, Type, TypeView, UBitwidth,
};

verus! {

/// How the kind of a type is written.
pub open spec fn kind_name(t: TypeView) -> Seq<char> {
    match t {
        TypeView::FieldElement => "field"@,
        TypeView::Boolean => "bool"@,
        TypeView::Uint(UBitwidth::B8) => "u8"@,
        TypeView::Uint(UBitwidth::B16) => "u16"@,
        TypeView::Uint(UBitwidth::B32) => "u32"@,
        TypeView::Array(_, _) => "array"@,
        TypeView::Struct(_) => "struct"@,
    }
}

/// The entries with which a type is written.
pub open spec fn type_entries(t: TypeView) -> Seq<(Seq<char>, JsonView)>
    decreases t, 1nat,
{
    match t {
        TypeView::Array(ty, size) => seq![
            ("type"@, JsonView::Text(kind_name(t))),
            (
                "components"@,
                JsonView::Object(seq![("size"@, JsonView::Number(size))] + type_entries(*ty)),
            ),
        ],
        TypeView::Struct(s) => seq![
            ("type"@, JsonView::Text(kind_name(t))),
            (
                "components"@,
                JsonView::Object(
                    seq![
                        ("name"@, JsonView::Text(s.canonical_location.name)),
                        ("members"@, JsonView::List(members_encoded(s.members))),
                    ],
                ),
            ),
        ],
        _ => seq![("type"@, JsonView::Text(kind_name(t)))],
    }
}

/// How a member of a struct type is written: its name, then its type.
pub open spec fn member_encoded(m: StructMemberView) -> JsonView
    decreases m, 2nat,
{
    JsonView::Object(seq![("name"@, JsonView::Text(m.id))] + type_entries(m.ty))
}

/// How the members of a struct type are written.
pub open spec fn members_encoded(members: Seq<StructMemberView>) -> Seq<JsonView>
    decreases members, 0nat,
{
    Seq::new(
        members.len(),
        |i: int|
            if 0 <= i < members.len() {
                member_encoded(members[i])
            } else {
                JsonView::Null
            },
    )
}

/// How an input is written: its name, whether it is public, then its type.
pub open spec fn input_encoded(i: AbiInputView) -> JsonView {
    JsonView::Object(
        seq![("name"@, JsonView::Text(i.name)), ("public"@, JsonView::Flag(i.public))]
            + type_entries(i.ty),
    )
}

/// How an interface is written: its inputs, then its outputs.
pub open spec fn abi_encoded(a: AbiView) -> JsonView {
    JsonView::Object(
        seq![
            ("inputs"@, JsonView::List(Seq::new(a.inputs.len(), |i: int| input_encoded(a.inputs[i])))),
            (
                "outputs"@,
                JsonView::List(
                    Seq::new(a.outputs.len(), |i: int| JsonView::Object(type_entries(a.outputs[i]))),
                ),
            ),
        ],
    )
}

/// The type that entries stand for, if they stand for one: the value under
/// `type` names the kind, and for an array or a struct the value under
/// `components` is an object with the size and the type of the elements, or
/// with the name and the members. Other entries play no part.
pub open spec fn type_decoded(entries: Seq<(Seq<char>, JsonView)>) -> Option<TypeView>
    decreases entries, 1nat,
{
    match value_at(entries, "type"@) {
        Some(JsonView::Text(kind)) => {
            if kind == "field"@ {
                Some(TypeView::FieldElement)
            } else if kind == "bool"@ {
                Some(TypeView::Boolean)
            } else if kind == "u8"@ {
                Some(TypeView::Uint(UBitwidth::B8))
            } else if kind == "u16"@ {
                Some(TypeView::Uint(UBitwidth::B16))
            } else if kind == "u32"@ {
                Some(TypeView::Uint(UBitwidth::B32))
            } else if kind == "array"@ {
                match value_at(entries, "components"@) {
                    Some(JsonView::Object(inner)) => match (
                        value_at(inner, "size"@),
                        type_decoded(inner),
                    ) {
                        (Some(JsonView::Number(size)), Some(ty)) => Some(
                            TypeView::Array(Box::new(ty), size),
                        ),
                        _ => None,
                    },
                    _ => None,
                }
            } else if kind == "struct"@ {
                match value_at(entries, "components"@) {
                    Some(JsonView::Object(inner)) => match (
                        value_at(inner, "name"@),
                        value_at(inner, "members"@),
                    ) {
                        (Some(JsonView::Text(name)), Some(JsonView::List(members))) => {
                            match members_decoded(members, members.len()) {
                                Some(m) => Some(
                                    TypeView::Struct(
                                        StructTypeView {
                                            canonical_location: StructLocationView {
                                                module: Seq::empty(),
                                                name,
                                            },
                                            location: None,
                                            members: m,
                                        },
                                    ),
                                ),
                                None => None,
                            }
                        },
                        _ => None,
                    },
                    _ => None,
                }
            } else {
                None
            }
        },
        _ => None,
    }
}

/// The member that a value stands for, if it stands for one: an object with
/// a name and the entries of a type.
pub open spec fn member_decoded(j: JsonView) -> Option<StructMemberView>
    decreases j, 2nat,
{
    match j {
        JsonView::Object(entries) => match (value_at(entries, "name"@), type_decoded(entries)) {
            (Some(JsonView::Text(id)), Some(ty)) => Some(StructMemberView { id, ty }),
            _ => None,
        },
        _ => None,
    }
}

/// The members that the first `n` values of a list stand for, if each
/// stands for one.
pub open spec fn members_decoded(list: Seq<JsonView>, n: nat) -> Option<Seq<StructMemberView>>
    decreases list, n,
{
    if n == 0 || n > list.len() {
        Some(Seq::empty())
    } else {
        match (members_decoded(list, (n - 1) as nat), member_decoded(list[n - 1])) {
            (Some(before), Some(m)) => Some(before.push(m)),
            _ => None,
        }
    }
}

/// The input that a value stands for, if it stands for one: an object with
/// a name, whether the input is public, and the entries of a type.
pub open spec fn input_decoded(j: JsonView) -> Option<AbiInputView> {
    match j {
        JsonView::Object(entries) => match (
            value_at(entries, "name"@),
            value_at(entries, "public"@),
            type_decoded(entries),
        ) {
            (Some(JsonView::Text(name)), Some(JsonView::Flag(public)), Some(ty)) => Some(
                AbiInputView { name, public, ty },
            ),
            _ => None,
        },
        _ => None,
    }
}

/// The inputs that the first `n` values of a list stand for, if each stands
/// for one.
pub open spec fn inputs_decoded(list: Seq<JsonView>, n: nat) -> Option<Seq<AbiInputView>>
    decreases n,
{
    if n == 0 || n > list.len() {
        Some(Seq::empty())
    } else {
        match (inputs_decoded(list, (n - 1) as nat), input_decoded(list[n - 1])) {
            (Some(before), Some(i)) => Some(before.push(i)),
            _ => None,
        }
    }
}

/// The output that a value stands for, if it stands for one: an object with
/// the entries of a type.
pub open spec fn output_decoded(j: JsonView) -> Option<TypeView> {
    match j {
        JsonView::Object(entries) => type_decoded(entries),
        _ => None,
    }
}

/// The outputs that the first `n` values of a list stand for, if each
/// stands for one.
pub open spec fn outputs_decoded(list: Seq<JsonView>, n: nat) -> Option<Seq<TypeView>>
    decreases n,
{
    if n == 0 || n > list.len() {
        Some(Seq::empty())
    } else {
        match (outputs_decoded(list, (n - 1) as nat), output_decoded(list[n - 1])) {
            (Some(before), Some(t)) => Some(before.push(t)),
            _ => None,
        }
    }
}

/// The interface that a value stands for, if it stands for one: an object
/// with a list of inputs and a list of outputs.
pub open spec fn abi_decoded(j: JsonView) -> Option<AbiView> {
    match j {
        JsonView::Object(entries) => match (
            value_at(entries, "inputs"@),
            value_at(entries, "outputs"@),
        ) {
            (Some(JsonView::List(inputs)), Some(JsonView::List(outputs))) => match (
                inputs_decoded(inputs, inputs.len()),
                outputs_decoded(outputs, outputs.len()),
            ) {
                (Some(i), Some(o)) => Some(AbiView { inputs: i, outputs: o }),
                _ => None,
            },
            _ => None,
        },
        _ => None,
    }
}

/// The type as it is read back once written: each struct type known under
/// the name it was declared with, in no module.
pub open spec fn plain(t: TypeView) -> TypeView
    decreases t, 1nat,
{
    match t {
        TypeView::Array(ty, size) => TypeView::Array(Box::new(plain(*ty)), size),
        TypeView::Struct(s) => TypeView::Struct(
            StructTypeView {
                canonical_location: StructLocationView {
                    module: Seq::empty(),
                    name: s.canonical_location.name,
                },
                location: None,
                members: plain_members(s.members),
            },
        ),
        _ => t,
    }
}

/// The members with their types as they are read back once written.
pub open spec fn plain_members(members: Seq<StructMemberView>) -> Seq<StructMemberView>
    decreases members, 0nat,
{
    Seq::new(
        members.len(),
        |i: int|
            if 0 <= i < members.len() {
                StructMemberView { id: members[i].id, ty: plain(members[i].ty) }
            } else {
                arbitrary()
            },
    )
}

/// The interface as it is read back once written.
pub open spec fn plain_abi(a: AbiView) -> AbiView {
    AbiView {
        inputs: Seq::new(
            a.inputs.len(),
            |i: int|
                AbiInputView {
                    name: a.inputs[i].name,
                    public: a.inputs[i].public,
                    ty: plain(a.inputs[i].ty),
                },
        ),
        outputs: Seq::new(a.outputs.len(), |i: int| plain(a.outputs[i])),
    }
}

/// The keys and the names of the kinds are different words.
proof fn lemma_words()
    ensures
        "type"@ != "components"@,
        "type"@ != "size"@,
        "type"@ != "name"@,
        "type"@ != "public"@,
        "components"@ != "size"@,
        "components"@ != "name"@,
        "components"@ != "public"@,
        "name"@ != "members"@,
        "name"@ != "public"@,
        "inputs"@ != "outputs"@,
        "field"@ != "bool"@,
        "field"@ != "u8"@,
        "field"@ != "u16"@,
        "field"@ != "u32"@,
        "field"@ != "array"@,
        "field"@ != "struct"@,
        "bool"@ != "u8"@,
        "bool"@ != "u16"@,
        "bool"@ != "u32"@,
        "bool"@ != "array"@,
        "bool"@ != "struct"@,
        "u8"@ != "u16"@,
        "u8"@ != "u32"@,
        "u8"@ != "array"@,
        "u8"@ != "struct"@,
        "u16"@ != "u32"@,
        "u16"@ != "array"@,
        "u16"@ != "struct"@,
        "u32"@ != "array"@,
        "u32"@ != "struct"@,
        "array"@ != "struct"@,
{
    reveal_strlit("type");
    reveal_strlit("components");
    reveal_strlit("size");
    reveal_strlit("name");
    reveal_strlit("public");
    reveal_strlit("members");
    reveal_strlit("inputs");
    reveal_strlit("outputs");
    reveal_strlit("field");
    reveal_strlit("bool");
    reveal_strlit("u8");
    reveal_strlit("u16");
    reveal_strlit("u32");
    reveal_strlit("array");
    reveal_strlit("struct");
    assert("type"@.len() == 4);
    assert("components"@.len() == 10);
    assert("size"@.len() == 4);
    assert("name"@.len() == 4);
    assert("public"@.len() == 6);
    assert("members"@.len() == 7);
    assert("inputs"@.len() == 6);
    assert("outputs"@.len() == 7);
    assert("field"@.len() == 5);
    assert("bool"@.len() == 4);
    assert("u8"@.len() == 2);
    assert("u16"@.len() == 3);
    assert("u32"@.len() == 3);
    assert("array"@.len() == 5);
    assert("struct"@.len() == 6);
    assert("type"@[0] != "size"@[0]);
    assert("type"@[0] != "name"@[0]);
    assert("u16"@[1] != "u32"@[1]);
    assert("field"@[0] != "array"@[0]);
}

/// A type is written with `type` first and, for an array or a struct, with
/// `components` second.
proof fn lemma_type_entries(t: TypeView)
    ensures
        type_entries(t).len() == (if t is Array || t is Struct {
            2nat
        } else {
            1nat
        }),
        type_entries(t)[0] == ("type"@, JsonView::Text(kind_name(t))),
        t is Array || t is Struct ==> type_entries(t)[1].0 == "components"@,
{
}

/// What is read from the entries of a type is not touched by entries
/// before them under other keys.
proof fn lemma_behind(before: Seq<(Seq<char>, JsonView)>, t: TypeView)
    requires
        forall|i: int|
            0 <= i < before.len() ==> (#[trigger] before[i]).0 != "type"@ && before[i].0
                != "components"@,
    ensures
        type_decoded(before + type_entries(t)) == type_decoded(type_entries(t)),
{
    lemma_words();
    lemma_type_entries(t);
    let entries = type_entries(t);
    let all = before + entries;
    lemma_named_position_is(entries, "type"@, 0);
    lemma_named_position_is(all, "type"@, before.len() as int);
    assert(value_at(all, "type"@) == value_at(entries, "type"@));
    lemma_named_position_is(entries, "components"@, 1);
    lemma_named_position_is(all, "components"@, (before.len() + 1) as int);
    assert(value_at(all, "components"@) == value_at(entries, "components"@));
}

/// A type that is written and read back is the type, but for the modules
/// of struct types, which are not written.
pub proof fn law_type_round_trip(t: TypeView)
    ensures
        type_decoded(type_entries(t)) == Some(plain(t)),
    decreases t, 1nat,
{
    lemma_words();
    lemma_type_entries(t);
    let entries = type_entries(t);
    lemma_named_position_is(entries, "type"@, 0);
    match t {
        TypeView::Array(ty, size) => {
            lemma_named_position_is(entries, "components"@, 1);
            let before = seq![("size"@, JsonView::Number(size))];
            let inner = before + type_entries(*ty);
            lemma_named_position_is(inner, "size"@, 0);
            lemma_behind(before, *ty);
            law_type_round_trip(*ty);
        },
        TypeView::Struct(s) => {
            lemma_named_position_is(entries, "components"@, 1);
            let inner = seq![
                ("name"@, JsonView::Text(s.canonical_location.name)),
                ("members"@, JsonView::List(members_encoded(s.members))),
            ];
            lemma_named_position_is(inner, "name"@, 0);
            lemma_named_position_is(inner, "members"@, 1);
            lemma_members_round_trip(s.members, s.members.len());
            assert(plain_members(s.members).take(s.members.len() as int) =~= plain_members(
                s.members,
            ));
        },
        _ => {},
    }
}

/// The members of a struct type that are written and read back.
proof fn lemma_members_round_trip(members: Seq<StructMemberView>, n: nat)
    requires
        n <= members.len(),
    ensures
        members_decoded(members_encoded(members), n) == Some(plain_members(members).take(n as int)),
    decreases members, 0nat, n,
{
    if n == 0 {
        assert(plain_members(members).take(0) =~= Seq::<StructMemberView>::empty());
    } else {
        lemma_members_round_trip(members, (n - 1) as nat);
        let m = members[n - 1];
        lemma_words();
        let before = seq![("name"@, JsonView::Text(m.id))];
        let entries = before + type_entries(m.ty);
        lemma_named_position_is(entries, "name"@, 0);
        lemma_behind(before, m.ty);
        law_type_round_trip(m.ty);
        assert(member_decoded(member_encoded(m)) == Some(
            StructMemberView { id: m.id, ty: plain(m.ty) },
        ));
        assert(plain_members(members).take(n as int) =~= plain_members(members).take(n - 1).push(
            plain_members(members)[n - 1],
        ));
    }
}

/// An interface that is written and read back is the interface, but for
/// the modules of struct types, which are not written.
pub proof fn law_abi_round_trip(a: AbiView)
    ensures
        abi_decoded(abi_encoded(a)) == Some(plain_abi(a)),
{
    lemma_words();
    let inputs = Seq::new(a.inputs.len(), |i: int| input_encoded(a.inputs[i]));
    let outputs = Seq::new(
        a.outputs.len(),
        |i: int| JsonView::Object(type_entries(a.outputs[i])),
    );
    let entries = seq![("inputs"@, JsonView::List(inputs)), ("outputs"@, JsonView::List(outputs))];
    lemma_named_position_is(entries, "inputs"@, 0);
    lemma_named_position_is(entries, "outputs"@, 1);
    lemma_inputs_round_trip(a, a.inputs.len());
    lemma_outputs_round_trip(a, a.outputs.len());
    assert(plain_abi(a).inputs.take(a.inputs.len() as int) =~= plain_abi(a).inputs);
    assert(plain_abi(a).outputs.take(a.outputs.len() as int) =~= plain_abi(a).outputs);
}

proof fn lemma_inputs_round_trip(a: AbiView, n: nat)
    requires
        n <= a.inputs.len(),
    ensures
        inputs_decoded(Seq::new(a.inputs.len(), |i: int| input_encoded(a.inputs[i])), n) == Some(
            plain_abi(a).inputs.take(n as int),
        ),
    decreases n,
{
    if n == 0 {
        assert(plain_abi(a).inputs.take(0) =~= Seq::<AbiInputView>::empty());
    } else {
        lemma_inputs_round_trip(a, (n - 1) as nat);
        let i = a.inputs[n - 1];
        lemma_words();
        let before = seq![("name"@, JsonView::Text(i.name)), ("public"@, JsonView::Flag(i.public))];
        let entries = before + type_entries(i.ty);
        lemma_named_position_is(entries, "name"@, 0);
        lemma_named_position_is(entries, "public"@, 1);
        lemma_behind(before, i.ty);
        law_type_round_trip(i.ty);
        assert(input_decoded(input_encoded(i)) == Some(
            AbiInputView { name: i.name, public: i.public, ty: plain(i.ty) },
        ));
        assert(plain_abi(a).inputs.take(n as int) =~= plain_abi(a).inputs.take(n - 1).push(
            plain_abi(a).inputs[n - 1],
        ));
    }
}

proof fn lemma_outputs_round_trip(a: AbiView, n: nat)
    requires
        n <= a.outputs.len(),
    ensures
        outputs_decoded(
            Seq::new(a.outputs.len(), |i: int| JsonView::Object(type_entries(a.outputs[i]))),
            n,
        ) == Some(plain_abi(a).outputs.take(n as int)),
    decreases n,
{
    if n == 0 {
        assert(plain_abi(a).outputs.take(0) =~= Seq::<TypeView>::empty());
    } else {
        lemma_outputs_round_trip(a, (n - 1) as nat);
        law_type_round_trip(a.outputs[n - 1]);
        assert(plain_abi(a).outputs.take(n as int) =~= plain_abi(a).outputs.take(n - 1).push(
            plain_abi(a).outputs[n - 1],
        ));
    }
}

/// How the kind of a type is written.
fn kind_text(t: &Type) -> (r: String)
    ensures
        r@ == kind_name(t@),
{
    match t {
        Type::FieldElement => String::from_str("field"),
        Type::Boolean => String::from_str("bool"),
        Type::Uint(UBitwidth::B8) => String::from_str("u8"),
        Type::Uint(UBitwidth::B16) => String::from_str("u16"),
        Type::Uint(UBitwidth::B32) => String::from_str("u32"),
        Type::Array(_) => String::from_str("array"),
        Type::Struct(_) => String::from_str("struct"),
    }
}

/// The entries after a first one.
fn entries_behind(key: &str, value: Json, rest: Vec<(String, Json)>) -> (r: Vec<(String, Json)>)
    ensures
        entries_model(&r) == seq![(key@, value@)] + entries_model(&rest),
{
    let mut rest = rest;
    let ghost behind = entries_model(&rest);
    let ghost old_rest = rest;
    let mut out: Vec<(String, Json)> = Vec::new();
    out.push((String::from_str(key), value));
    out.append(&mut rest);
    proof {
        assert forall|i: int| 0 <= i < out.len() implies #[trigger] entries_model(&out)[i] == (
        seq![(key@, value@)] + behind)[i] by {
            if i > 0 {
                assert(out[i] == old_rest[i - 1]);
            }
        }
        assert(entries_model(&out) =~= seq![(key@, value@)] + behind);
    }
    out
}

impl Type {
    /// The entries with which the type is written.
    pub fn to_entries(&self) -> (r: Vec<(String, Json)>)
        ensures
            entries_model(&r) == type_entries(self@),
        decreases self,
    {
        let mut out: Vec<(String, Json)> = Vec::new();
        out.push((String::from_str("type"), Json::Text(kind_text(self))));
        match self {
            Type::Array(a) => {
                let inner = entries_behind("size", Json::Number(a.size), a.ty.to_entries());
                out.push((String::from_str("components"), Json::Object(inner)));
            },
            Type::Struct(st) => {
                let mut members: Vec<Json> = Vec::new();
                let mut i: usize = 0;
                let ghost sv = st@;
                while i < st.members.len()
                    invariant
                        i <= st.members.len(),
                        sv == st@,
                        *self == Type::Struct(*st),
                        members.len() == i,
                        forall|j: int|
                            0 <= j < i ==> (#[trigger] members[j])@ == member_encoded(
                                sv.members[j],
                            ),
                    decreases st.members.len() - i,
                {
                    let m = &st.members[i];
                    assert(sv.members[i as int] == m@);
                    assert(*self is Struct);
                    assert(decreases_to!(*self => self->Struct_0));
                    assert(decreases_to!(*st => st.members));
                    assert(decreases_to!(st.members => st.members[i as int]));
                    assert(decreases_to!(*m => m.ty));
                    let entries = entries_behind("name", Json::Text(m.id.clone()), m.ty.to_entries());
                    members.push(Json::Object(entries));
                    i += 1;
                }
                assert(list_model(&members) =~= members_encoded(sv.members));
                let mut inner: Vec<(String, Json)> = Vec::new();
                inner.push((String::from_str("name"), Json::Text(st.canonical_location.name.clone())));
                inner.push((String::from_str("members"), Json::List(members)));
                assert(entries_model(&inner) =~= seq![
                    ("name"@, JsonView::Text(sv.canonical_location.name)),
                    ("members"@, JsonView::List(members_encoded(sv.members))),
                ]);
                out.push((String::from_str("components"), Json::Object(inner)));
            },
            _ => {},
        }
        assert(entries_model(&out) =~= type_entries(self@));
        out
    }
}

impl AbiInput {
    /// The input as a JSON value.
    pub fn to_json(&self) -> (r: Json)
        ensures
            r@ == input_encoded(self@),
    {
        let entries = entries_behind(
            "name",
            Json::Text(self.name.clone()),
            entries_behind("public", Json::Flag(self.public), self.ty.to_entries()),
        );
        assert(entries_model(&entries) =~= seq![
            ("name"@, JsonView::Text(self.name@)),
            ("public"@, JsonView::Flag(self.public)),
        ] + type_entries(self.ty@));
        Json::Object(entries)
    }
}

impl Abi {
    /// The interface as a JSON value.
    pub fn to_json(&self) -> (r: Json)
        ensures
            r@ == abi_encoded(self@),
    {
        let mut inputs: Vec<Json> = Vec::new();
        let mut i: usize = 0;
        while i < self.inputs.len()
            invariant
                i <= self.inputs.len(),
                inputs.len() == i,
                forall|j: int| 0 <= j < i ==> (#[trigger] inputs[j])@ == input_encoded(self.inputs[j]@),
            decreases self.inputs.len() - i,
        {
            inputs.push(self.inputs[i].to_json());
            i += 1;
        }
        let mut outputs: Vec<Json> = Vec::new();
        let mut k: usize = 0;
        while k < self.outputs.len()
            invariant
                k <= self.outputs.len(),
                outputs.len() == k,
                forall|j: int|
                    0 <= j < k ==> (#[trigger] outputs[j])@ == JsonView::Object(
                        type_entries(self.outputs[j]@),
                    ),
            decreases self.outputs.len() - k,
        {
            outputs.push(Json::Object(self.outputs[k].to_entries()));
            k += 1;
        }
        assert(list_model(&inputs) =~= Seq::new(
            self@.inputs.len(),
            |i: int| input_encoded(self@.inputs[i]),
        ));
        assert(list_model(&outputs) =~= Seq::new(
            self@.outputs.len(),
            |i: int| JsonView::Object(type_entries(self@.outputs[i])),
        ));
        let mut entries: Vec<(String, Json)> = Vec::new();
        entries.push((String::from_str("inputs"), Json::List(inputs)));
        entries.push((String::from_str("outputs"), Json::List(outputs)));
        assert(entries_model(&entries) =~= seq![
            ("inputs"@, JsonView::List(list_model(&inputs))),
            ("outputs"@, JsonView::List(list_model(&outputs))),
        ]);
        Json::Object(entries)
    }
}

/// Where a member cannot be read, the members cannot.
proof fn lemma_members_fail(list: Seq<JsonView>, k: nat, n: nat)
    requires
        k <= n <= list.len(),
        members_decoded(list, k) is None,
    ensures
        members_decoded(list, n) is None,
    decreases n,
{
    if k < n {
        lemma_members_fail(list, k, (n - 1) as nat);
    }
}

/// Where an input cannot be read, the inputs cannot.
proof fn lemma_inputs_fail(list: Seq<JsonView>, k: nat, n: nat)
    requires
        k <= n <= list.len(),
        inputs_decoded(list, k) is None,
    ensures
        inputs_decoded(list, n) is None,
    decreases n,
{
    if k < n {
        lemma_inputs_fail(list, k, (n - 1) as nat);
    }
}

/// Where an output cannot be read, the outputs cannot.
proof fn lemma_outputs_fail(list: Seq<JsonView>, k: nat, n: nat)
    requires
        k <= n <= list.len(),
        outputs_decoded(list, k) is None,
    ensures
        outputs_decoded(list, n) is None,
    decreases n,
{
    if k < n {
        lemma_outputs_fail(list, k, (n - 1) as nat);
    }
}

/// The text under a key, if a text stands there.
fn text_under<'a>(entries: &'a Vec<(String, Json)>, key: &str) -> (r: Option<&'a String>)
    ensures
        match r {
            Some(s) => value_at(entries_model(entries), key@) == Some(JsonView::Text(s@)),
            None => !(value_at(entries_model(entries), key@) matches Some(JsonView::Text(_))),
        },
{
    match find_entry(entries, key) {
        Some(i) => match &entries[i].1 {
            Json::Text(s) => Some(s),
            _ => None,
        },
        None => None,
    }
}

/// The entries of the object under a key, if an object stands there.
fn object_under<'a>(entries: &'a Vec<(String, Json)>, key: &str) -> (r: Option<
    &'a Vec<(String, Json)>,
>)
    ensures
        match r {
            Some(inner) => value_at(entries_model(entries), key@) == Some(
                JsonView::Object(entries_model(inner)),
            ) && decreases_to!(entries => inner),
            None => !(value_at(entries_model(entries), key@) matches Some(JsonView::Object(_))),
        },
{
    match find_entry(entries, key) {
        Some(i) => match &entries[i].1 {
            Json::Object(inner) => {
                assert(decreases_to!(entries => entries[i as int]));
                assert(decreases_to!(entries[i as int] => entries[i as int].1));
                assert(entries[i as int].1 is Object);
                assert(decreases_to!(entries[i as int].1 => entries[i as int].1->Object_0));
                Some(inner)
            },
            _ => None,
        },
        None => None,
    }
}

/// The values of the list under a key, if a list stands there.
fn list_under<'a>(entries: &'a Vec<(String, Json)>, key: &str) -> (r: Option<&'a Vec<Json>>)
    ensures
        match r {
            Some(list) => value_at(entries_model(entries), key@) == Some(
                JsonView::List(list_model(list)),
            ) && decreases_to!(entries => list),
            None => !(value_at(entries_model(entries), key@) matches Some(JsonView::List(_))),
        },
{
    match find_entry(entries, key) {
        Some(i) => match &entries[i].1 {
            Json::List(list) => {
                assert(decreases_to!(entries => entries[i as int]));
                assert(decreases_to!(entries[i as int] => entries[i as int].1));
                assert(entries[i as int].1 is List);
                assert(decreases_to!(entries[i as int].1 => entries[i as int].1->List_0));
                Some(list)
            },
            _ => None,
        },
        None => None,
    }
}

impl Type {
    /// The type that entries stand for, if they stand for one.
    #[verifier::loop_isolation(false)]
    pub fn from_entries(entries: &Vec<(String, Json)>) -> (r: Option<Type>)
        ensures
            match r {
                Some(t) => type_decoded(entries_model(entries)) == Some(t@),
                None => type_decoded(entries_model(entries)) is None,
            },
        decreases entries,
    {
        let kind = match text_under(entries, "type") {
            Some(kind) => kind,
            None => {
                return None;
            },
        };
        if str_eq(kind.as_str(), "field") {
            Some(Type::FieldElement)
        } else if str_eq(kind.as_str(), "bool") {
            Some(Type::Boolean)
        } else if str_eq(kind.as_str(), "u8") {
            Some(Type::Uint(UBitwidth::B8))
        } else if str_eq(kind.as_str(), "u16") {
            Some(Type::Uint(UBitwidth::B16))
        } else if str_eq(kind.as_str(), "u32") {
            Some(Type::Uint(UBitwidth::B32))
        } else if str_eq(kind.as_str(), "array") {
            let inner = match object_under(entries, "components") {
                Some(inner) => inner,
                None => {
                    return None;
                },
            };
            let size = match find_entry(inner, "size") {
                Some(i) => match &inner[i].1 {
                    Json::Number(n) => *n,
                    _ => {
                        return None;
                    },
                },
                None => {
                    return None;
                },
            };
            match Type::from_entries(inner) {
                Some(ty) => Some(Type::Array(ArrayType { size, ty: Box::new(ty) })),
                None => None,
            }
        } else if str_eq(kind.as_str(), "struct") {
            let inner = match object_under(entries, "components") {
                Some(inner) => inner,
                None => {
                    return None;
                },
            };
            let name = match text_under(inner, "name") {
                Some(name) => name,
                None => {
                    return None;
                },
            };
            let list = match list_under(inner, "members") {
                Some(list) => list,
                None => {
                    return None;
                },
            };
            let ghost values = list_model(list);
            let mut members: Vec<StructMember> = Vec::new();
            let mut i: usize = 0;
            while i < list.len()
                invariant
                    i <= list.len(),
                    values == list_model(list),
                    decreases_to!(entries => list),
                    members.len() == i,
                    members_decoded(values, i as nat) == Some(
                        Seq::new(i as nat, |j: int| members[j]@),
                    ),
                decreases list.len() - i,
            {
                let ghost before = Seq::new(i as nat, |j: int| members[j]@);
                assert(decreases_to!(list => list[i as int]));
                let read = match &list[i] {
                    Json::Object(m) => {
                        assert(list[i as int] is Object);
                        assert(decreases_to!(list[i as int] => list[i as int]->Object_0));
                        match (text_under(m, "name"), Type::from_entries(m)) {
                            (Some(id), Some(ty)) => Some(
                                StructMember { id: id.clone(), ty: Box::new(ty) },
                            ),
                            _ => None,
                        }
                    },
                    _ => None,
                };
                match read {
                    Some(m) => {
                        assert(member_decoded(values[i as int]) == Some(m@));
                        members.push(m);
                        assert(Seq::new((i + 1) as nat, |j: int| members[j]@) =~= before.push(m@));
                    },
                    None => {
                        proof {
                            assert(member_decoded(values[i as int]) is None);
                            assert(members_decoded(values, (i + 1) as nat) is None);
                            lemma_members_fail(values, (i + 1) as nat, list.len() as nat);
                        }
                        return None;
                    },
                }
                i += 1;
            }
            let st = StructType {
                canonical_location: StructLocation { module: String::new(), name: name.clone() },
                location: None,
                members,
            };
            assert(st@.members =~= Seq::new(i as nat, |j: int| members[j]@));
            Some(Type::Struct(st))
        } else {
            None
        }
    }
}

impl AbiInput {
    /// The input that a JSON value stands for, if it stands for one.
    pub fn from_json(j: &Json) -> (r: Option<AbiInput>)
        ensures
            match r {
                Some(i) => input_decoded(j@) == Some(i@),
                None => input_decoded(j@) is None,
            },
    {
        match j {
            Json::Object(entries) => {
                let name = match text_under(entries, "name") {
                    Some(name) => name,
                    None => {
                        return None;
                    },
                };
                let public = match find_entry(entries, "public") {
                    Some(i) => match &entries[i].1 {
                        Json::Flag(b) => *b,
                        _ => {
                            return None;
                        },
                    },
                    None => {
                        return None;
                    },
                };
                match Type::from_entries(entries) {
                    Some(ty) => Some(AbiInput { name: name.clone(), public, ty }),
                    None => None,
                }
            },
            _ => None,
        }
    }
}

impl Abi {
    /// The interface that a JSON value stands for, if it stands for one.
    #[verifier::loop_isolation(false)]
    pub fn from_json(j: &Json) -> (r: Option<Abi>)
        ensures
            match r {
                Some(a) => abi_decoded(j@) == Some(a@),
                None => abi_decoded(j@) is None,
            },
    {
        let entries = match j {
            Json::Object(entries) => entries,
            _ => {
                return None;
            },
        };
        let (given, returned) = match (list_under(entries, "inputs"), list_under(entries, "outputs")) {
            (Some(given), Some(returned)) => (given, returned),
            _ => {
                return None;
            },
        };
        let ghost given_values = list_model(given);
        let mut inputs: Vec<AbiInput> = Vec::new();
        let mut i: usize = 0;
        while i < given.len()
            invariant
                i <= given.len(),
                given_values == list_model(given),
                inputs.len() == i,
                inputs_decoded(given_values, i as nat) == Some(Seq::new(i as nat, |j: int| inputs[j]@)),
            decreases given.len() - i,
        {
            let ghost before = Seq::new(i as nat, |j: int| inputs[j]@);
            match AbiInput::from_json(&given[i]) {
                Some(input) => {
                    inputs.push(input);
                    assert(Seq::new((i + 1) as nat, |j: int| inputs[j]@) =~= before.push(input@));
                },
                None => {
                    proof {
                        assert(inputs_decoded(given_values, (i + 1) as nat) is None);
                        lemma_inputs_fail(given_values, (i + 1) as nat, given.len() as nat);
                    }
                    return None;
                },
            }
            i += 1;
        }
        let ghost returned_values = list_model(returned);
        let mut outputs: Vec<Type> = Vec::new();
        let mut k: usize = 0;
        while k < returned.len()
            invariant
                k <= returned.len(),
                returned_values == list_model(returned),
                outputs.len() == k,
                outputs_decoded(returned_values, k as nat) == Some(
                    Seq::new(k as nat, |j: int| outputs[j]@),
                ),
            decreases returned.len() - k,
        {
            let ghost before = Seq::new(k as nat, |j: int| outputs[j]@);
            let read = match &returned[k] {
                Json::Object(entries) => Type::from_entries(entries),
                _ => None,
            };
            match read {
                Some(ty) => {
                    outputs.push(ty);
                    assert(Seq::new((k + 1) as nat, |j: int| outputs[j]@) =~= before.push(ty@));
                },
                None => {
                    proof {
                        assert(outputs_decoded(returned_values, (k + 1) as nat) is None);
                        lemma_outputs_fail(returned_values, (k + 1) as nat, returned.len() as nat);
                    }
                    return None;
                },
            }
            k += 1;
        }
        let abi = Abi { inputs, outputs };
        assert(abi@.inputs =~= Seq::new(i as nat, |j: int| inputs[j]@));
        assert(abi@.outputs =~= Seq::new(k as nat, |j: int| outputs[j]@));
        Some(abi)
    }
}

} // verus!
