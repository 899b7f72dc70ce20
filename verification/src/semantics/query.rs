//! Looking a function up by its name, the types of its arguments and what
//! is known of the types it returns.

use vstd::prelude::*;
use crate::text::{join, push_joined};
use crate::typed_absy::types::{
    FunctionKey, FunctionKeyView, Type, TypeView, same_type, same_types, type_display,
    types_copy, types_display, types_same, types_to_string, types_view,
};

verus! {

/// A query for a function: its name, the types of its arguments, and for
/// each value it returns the type of that value where it is known.
#[derive(Debug)]
pub struct FunctionQuery {
    pub id: String,
    pub inputs: Vec<Type>,
    pub outputs: Vec<Option<Type>>,
}

pub struct FunctionQueryView {
    pub id: Seq<char>,
    pub inputs: Seq<TypeView>,
    pub outputs: Seq<Option<TypeView>>,
}

/// The views of a list of types that may be unknown.
pub open spec fn hints_view(hints: Seq<Option<Type>>) -> Seq<Option<TypeView>> {
    Seq::new(
        hints.len(),
        |i: int|
            match hints[i] {
                Some(t) => Some(t@),
                None => None,
            },
    )
}

impl View for FunctionQuery {
    type V = FunctionQueryView;

    open spec fn view(&self) -> FunctionQueryView {
        FunctionQueryView {
            id: self.id@,
            inputs: types_view(self.inputs@),
            outputs: hints_view(self.outputs@),
        }
    }
}

/// How a type that may be unknown is written.
pub open spec fn hint_display(hint: Option<TypeView>) -> Seq<char> {
    match hint {
        Some(t) => type_display(t),
        None => "_"@,
    }
}

impl FunctionQueryView {
    /// Whether the key answers the query: the names agree, the input types
    /// are equal, as many values are returned as asked for, and each known
    /// output type equals the type of the value at its place.
    pub open spec fn matches(self, key: FunctionKeyView) -> bool {
        &&& self.id == key.id
        &&& same_types(self.inputs, key.signature.inputs)
        &&& self.outputs.len() == key.signature.outputs.len()
        &&& forall|i: int|
            0 <= i < self.outputs.len() ==> ((#[trigger] self.outputs[i]) matches Some(t)
                ==> same_type(t, key.signature.outputs[i]))
    }

    /// The position of the first key that answers the query, or the number
    /// of keys if none does.
    pub open spec fn first_match(self, keys: Seq<FunctionKeyView>) -> int
        decreases keys.len(),
    {
        if keys.len() == 0 {
            0
        } else if self.matches(keys[0]) {
            0
        } else {
            1 + self.first_match(keys.drop_first())
        }
    }

    /// The first key that answers the query.
    pub open spec fn find(self, keys: Seq<FunctionKeyView>) -> Option<FunctionKeyView> {
        if self.first_match(keys) < keys.len() {
            Some(keys[self.first_match(keys)])
        } else {
            None
        }
    }

    /// How the signature asked for is written, with `_` for a type that is
    /// not known.
    pub open spec fn display(self) -> Seq<char> {
        "("@ + types_display(self.inputs) + ")"@ + (if self.outputs.len() == 0 {
            Seq::empty()
        } else if self.outputs.len() == 1 {
            " -> "@ + hint_display(self.outputs[0])
        } else {
            " -> ("@ + join(
                Seq::new(self.outputs.len(), |i: int| hint_display(self.outputs[i])),
                ", "@,
            ) + ")"@
        })
    }
}

pub proof fn lemma_first_match(query: FunctionQueryView, keys: Seq<FunctionKeyView>)
    ensures
        0 <= query.first_match(keys) <= keys.len(),
        query.first_match(keys) < keys.len() ==> query.matches(keys[query.first_match(keys)]),
        forall|j: int| 0 <= j < query.first_match(keys) ==> !query.matches(#[trigger] keys[j]),
    decreases keys.len(),
{
    if keys.len() != 0 && !query.matches(keys[0]) {
        let rest = keys.drop_first();
        lemma_first_match(query, rest);
        assert forall|j: int| 0 <= j < query.first_match(keys) implies !query.matches(
            #[trigger] keys[j],
        ) by {
            if j > 0 {
                assert(keys[j] == rest[j - 1]);
            }
        }
    }
}

pub proof fn lemma_first_match_is(query: FunctionQueryView, keys: Seq<FunctionKeyView>, i: int)
    requires
        0 <= i <= keys.len(),
        i < keys.len() ==> query.matches(keys[i]),
        forall|j: int| 0 <= j < i ==> !query.matches(#[trigger] keys[j]),
    ensures
        query.first_match(keys) == i,
{
    lemma_first_match(query, keys);
    let p = query.first_match(keys);
    if p < i {
        assert(query.matches(keys[p]));
    }
}

/// The views of a list of function keys.
pub open spec fn keys_view(keys: Seq<FunctionKey>) -> Seq<FunctionKeyView> {
    Seq::new(keys.len(), |i: int| keys[i]@)
}

impl FunctionQuery {
    /// The query for `id` with copies of the given types.
    pub fn new(id: &str, inputs: &Vec<Type>, outputs: &Vec<Option<Type>>) -> (r: FunctionQuery)
        ensures
            r@ == (FunctionQueryView {
                id: id@,
                inputs: types_view(inputs@),
                outputs: hints_view(outputs@),
            }),
    {
        let mut hints: Vec<Option<Type>> = Vec::new();
        let mut i: usize = 0;
        while i < outputs.len()
            invariant
                i <= outputs.len(),
                hints.len() == i,
                forall|j: int| 0 <= j < i ==> hints_view(hints@)[j] == hints_view(outputs@)[j],
            decreases outputs.len() - i,
        {
            let hint = match &outputs[i] {
                Some(t) => Some(t.clone()),
                None => None,
            };
            hints.push(hint);
            i += 1;
        }
        assert(hints_view(hints@) =~= hints_view(outputs@));
        FunctionQuery { id: String::from_str(id), inputs: types_copy(inputs), outputs: hints }
    }

    /// Whether the key answers the query.
    pub fn match_func(&self, func: &FunctionKey) -> (r: bool)
        ensures
            r == self@.matches(func@),
    {
        if self.id != func.id {
            return false;
        }
        if !types_same(&self.inputs, &func.signature.inputs) {
            return false;
        }
        if self.outputs.len() != func.signature.outputs.len() {
            return false;
        }
        let mut i: usize = 0;
        while i < self.outputs.len()
            invariant
                i <= self.outputs.len(),
                self.outputs.len() == func.signature.outputs.len(),
                forall|j: int|
                    0 <= j < i ==> ((#[trigger] self@.outputs[j]) matches Some(t) ==> same_type(
                        t,
                        func@.signature.outputs[j],
                    )),
            decreases self.outputs.len() - i,
        {
            match &self.outputs[i] {
                Some(t) => {
                    if !t.same(&func.signature.outputs[i]) {
                        assert(self@.outputs[i as int] == Some(t@));
                        return false;
                    }
                },
                None => {},
            }
            i += 1;
        }
        true
    }

    /// The first key that answers the query.
    pub fn match_funcs(&self, funcs: &Vec<FunctionKey>) -> (r: Option<FunctionKey>)
        ensures
            r is Some <==> self@.find(keys_view(funcs@)) is Some,
            r matches Some(k) ==> Some(k@) == self@.find(keys_view(funcs@)),
    {
        let mut i: usize = 0;
        let ghost keys = keys_view(funcs@);
        while i < funcs.len()
            invariant
                i <= funcs.len(),
                keys == keys_view(funcs@),
                forall|j: int| 0 <= j < i ==> !self@.matches(#[trigger] keys[j]),
            decreases funcs.len() - i,
        {
            if self.match_func(&funcs[i]) {
                proof {
                    lemma_first_match_is(self@, keys, i as int);
                }
                return Some(funcs[i].clone());
            }
            i += 1;
        }
        proof {
            lemma_first_match_is(self@, keys, i as int);
        }
        None
    }

    /// The signature asked for as text.
    pub fn to_string(&self) -> (r: String)
        ensures
            r@ == self@.display(),
    {
        let mut s = String::from_str("(");
        s.append(types_to_string(&self.inputs).as_str());
        s.append(")");
        let ghost head = s@;
        let ghost hints = self@.outputs;
        if self.outputs.len() == 0 {
            assert(s@ =~= head + Seq::<char>::empty());
        } else if self.outputs.len() == 1 {
            let mut tail = String::from_str(" -> ");
            match &self.outputs[0] {
                Some(t) => tail.append(t.to_string().as_str()),
                None => tail.append("_"),
            }
            s.append(tail.as_str());
        } else {
            let mut list = String::new();
            let mut i: usize = 0;
            let ghost items = Seq::new(hints.len(), |i: int| hint_display(hints[i]));
            assert(items.take(0) =~= Seq::<Seq<char>>::empty());
            while i < self.outputs.len()
                invariant
                    i <= self.outputs.len(),
                    hints == self@.outputs,
                    items == Seq::new(hints.len(), |i: int| hint_display(hints[i])),
                    list@ == join(items.take(i as int), ", "@),
                decreases self.outputs.len() - i,
            {
                let item = match &self.outputs[i] {
                    Some(t) => t.to_string(),
                    None => String::from_str("_"),
                };
                proof {
                    assert(items.take(i + 1).drop_last() =~= items.take(i as int));
                }
                push_joined(&mut list, i, ", ", item.as_str(), Ghost(items.take(i + 1)));
                i += 1;
            }
            assert(items.take(i as int) =~= items);
            let mut tail = String::from_str(" -> (");
            tail.append(list.as_str());
            tail.append(")");
            s.append(tail.as_str());
        }
        s
    }
}

} // verus!
