//! The type system: primitive, array, struct and unsigned integer types,
//! function signatures and function keys.

use vstd::prelude::*;
use vstd::std_specs::cmp::PartialEqSpecImpl;
use crate::text::{dec_string, join, push_joined, usize_to_dec};

verus! {

pub type MemberId = String;

pub type UserTypeId = String;

pub type FunctionKeyHash = u64;

/// The width of an unsigned integer type.
#[derive(Clone, Copy, PartialEq, Eq, Structural, Debug, Hash, PartialOrd, Ord)]
pub enum UBitwidth {
    B8,
    B16,
    B32,
}

impl UBitwidth {
    pub open spec fn bits(&self) -> nat {
        match self {
            UBitwidth::B8 => 8,
            UBitwidth::B16 => 16,
            UBitwidth::B32 => 32,
        }
    }

    pub fn to_usize(&self) -> (r: usize)
        ensures
            r == self.bits(),
    {
        match self {
            UBitwidth::B8 => 8,
            UBitwidth::B16 => 16,
            UBitwidth::B32 => 32,
        }
    }

    /// The width of that many bits, if there is one.
    pub fn from_usize(bits: usize) -> (r: Option<UBitwidth>)
        ensures
            r matches Some(w) ==> w.bits() == bits,
            r is None <==> bits != 8 && bits != 16 && bits != 32,
    {
        if bits == 8 {
            Some(UBitwidth::B8)
        } else if bits == 16 {
            Some(UBitwidth::B16)
        } else if bits == 32 {
            Some(UBitwidth::B32)
        } else {
            None
        }
    }
}

/// Where a struct type was declared, or under which name a module knows it.
#[derive(Debug, Eq)]
pub struct StructLocation {
    pub module: String,
    pub name: String,
}

pub struct StructLocationView {
    pub module: Seq<char>,
    pub name: Seq<char>,
}

impl View for StructLocation {
    type V = StructLocationView;

    open spec fn view(&self) -> StructLocationView {
        StructLocationView { module: self.module@, name: self.name@ }
    }
}

impl Clone for StructLocation {
    fn clone(&self) -> (r: Self)
        ensures
            r@ == self@,
    {
        StructLocation { module: self.module.clone(), name: self.name.clone() }
    }
}

impl PartialEq for StructLocation {
    fn eq(&self, other: &Self) -> (r: bool) {
        self.module == other.module && self.name == other.name
    }
}

impl PartialEqSpecImpl for StructLocation {
    open spec fn obeys_eq_spec() -> bool {
        true
    }

    open spec fn eq_spec(&self, other: &Self) -> bool {
        self@ == other@
    }
}

/// A member of a struct type.
#[derive(Debug, Eq)]
pub struct StructMember {
    pub id: MemberId,
    pub ty: Box<Type>,
}

pub struct StructMemberView {
    pub id: Seq<char>,
    pub ty: TypeView,
}

/// The type of arrays of a fixed size.
#[derive(Debug, Eq)]
pub struct ArrayType {
    pub size: usize,
    pub ty: Box<Type>,
}

/// A struct type. It is told apart by where it was declared
/// (`canonical_location`) and carries its members in declaration order.
/// `location` is the name under which the module at hand knows it, where
/// that differs.
#[derive(Debug, Eq)]
pub struct StructType {
    pub canonical_location: StructLocation,
    pub location: Option<StructLocation>,
    pub members: Vec<StructMember>,
}

pub struct StructTypeView {
    pub canonical_location: StructLocationView,
    pub location: Option<StructLocationView>,
    pub members: Seq<StructMemberView>,
}

/// A type of the language.
#[derive(Debug, Eq)]
pub enum Type {
    FieldElement,
    Boolean,
    Array(ArrayType),
    Struct(StructType),
    Uint(UBitwidth),
}

pub enum TypeView {
    FieldElement,
    Boolean,
    Array(Box<TypeView>, nat),
    Struct(StructTypeView),
    Uint(UBitwidth),
}

impl StructTypeView {
    /// The name under which the type is known here.
    pub open spec fn name(self) -> Seq<char> {
        match self.location {
            Some(l) => l.name,
            None => self.canonical_location.name,
        }
    }

    /// The module in which the type is known under `name`.
    pub open spec fn module(self) -> Seq<char> {
        match self.location {
            Some(l) => l.module,
            None => self.canonical_location.module,
        }
    }

    /// The position of the first member called `id`, or the number of
    /// members if there is none.
    pub open spec fn position(self, id: Seq<char>) -> nat {
        first_member(self.members, id)
    }

    pub open spec fn has_member(self, id: Seq<char>) -> bool {
        self.position(id) < self.members.len()
    }

    /// The type of the first member called `id`.
    pub open spec fn member_type(self, id: Seq<char>) -> TypeView
        recommends
            self.has_member(id),
    {
        self.members[self.position(id) as int].ty
    }
}

/// The position of the first member called `id`, or the number of members if
/// there is none.
pub open spec fn first_member(members: Seq<StructMemberView>, id: Seq<char>) -> nat
    decreases members.len(),
{
    if members.len() == 0 {
        0
    } else if members[0].id == id {
        0
    } else {
        1 + first_member(members.drop_first(), id)
    }
}

pub proof fn lemma_first_member(members: Seq<StructMemberView>, id: Seq<char>)
    ensures
        first_member(members, id) <= members.len(),
        first_member(members, id) < members.len() ==> members[first_member(members, id) as int].id
            == id,
        forall|j: int| 0 <= j < first_member(members, id) ==> members[j].id != id,
    decreases members.len(),
{
    if members.len() != 0 && members[0].id != id {
        let rest = members.drop_first();
        lemma_first_member(rest, id);
        assert forall|j: int| 0 <= j < first_member(members, id) implies members[j].id != id by {
            if j > 0 {
                assert(members[j] == rest[j - 1]);
            }
        }
    }
}

impl StructMember {
    pub open spec fn model(&self) -> StructMemberView
        decreases self,
    {
        StructMemberView { id: self.id@, ty: self.ty.model() }
    }
}

impl ArrayType {
    pub open spec fn model(&self) -> TypeView
        decreases self,
    {
        TypeView::Array(Box::new(self.ty.model()), self.size as nat)
    }
}

impl StructType {
    pub open spec fn model(&self) -> StructTypeView
        decreases self,
    {
        StructTypeView {
            canonical_location: self.canonical_location@,
            location: match self.location {
                Some(l) => Some(l@),
                None => None,
            },
            members: Seq::new(
                self.members.len() as nat,
                |i: int|
                    if 0 <= i < self.members.len() {
                        self.members[i].model()
                    } else {
                        arbitrary()
                    },
            ),
        }
    }
}

impl Type {
    pub open spec fn model(&self) -> TypeView
        decreases self,
    {
        match self {
            Type::FieldElement => TypeView::FieldElement,
            Type::Boolean => TypeView::Boolean,
            Type::Array(a) => a.model(),
            Type::Struct(s) => TypeView::Struct(s.model()),
            Type::Uint(w) => TypeView::Uint(*w),
        }
    }
}

impl View for StructMember {
    type V = StructMemberView;

    open spec fn view(&self) -> StructMemberView {
        self.model()
    }
}

impl View for ArrayType {
    type V = TypeView;

    open spec fn view(&self) -> TypeView {
        self.model()
    }
}

impl View for StructType {
    type V = StructTypeView;

    open spec fn view(&self) -> StructTypeView {
        self.model()
    }
}

impl View for Type {
    type V = TypeView;

    open spec fn view(&self) -> TypeView {
        self.model()
    }
}

/// The views of a list of types.
pub open spec fn types_view(types: Seq<Type>) -> Seq<TypeView> {
    Seq::new(types.len(), |i: int| types[i]@)
}

/// Type equality. It is structural, but for struct types, which are equal
/// when they were declared in the same place under the same name and have the
/// same members; the name a module knows them under plays no part.
pub open spec fn same_type(a: TypeView, b: TypeView) -> bool
    decreases a,
{
    match (a, b) {
        (TypeView::FieldElement, TypeView::FieldElement) => true,
        (TypeView::Boolean, TypeView::Boolean) => true,
        (TypeView::Uint(x), TypeView::Uint(y)) => x == y,
        (TypeView::Array(x, n), TypeView::Array(y, m)) => n == m && same_type(*x, *y),
        (TypeView::Struct(x), TypeView::Struct(y)) => x.canonical_location == y.canonical_location
            && x.members.len() == y.members.len() && forall|i: int|
            0 <= i < x.members.len() ==> (#[trigger] x.members[i]).id == y.members[i].id
                && same_type(x.members[i].ty, y.members[i].ty),
        _ => false,
    }
}

/// Whether two lists of types are equal type by type.
pub open spec fn same_types(a: Seq<TypeView>, b: Seq<TypeView>) -> bool {
    &&& a.len() == b.len()
    &&& forall|i: int| 0 <= i < a.len() ==> #[trigger] same_type(a[i], b[i])
}

/// How a type is written.
pub open spec fn type_display(t: TypeView) -> Seq<char>
    decreases t, 1nat,
{
    match t {
        TypeView::FieldElement => "field"@,
        TypeView::Boolean => "bool"@,
        TypeView::Uint(w) => "u"@ + dec_string(w.bits()),
        TypeView::Array(ty, size) => type_display(*ty) + "["@ + dec_string(size) + "]"@,
        TypeView::Struct(s) => s.name() + " {"@ + join(members_display(s.members), ", "@) + "}"@,
    }
}

/// How the members of a struct type are written, one text for each.
pub open spec fn members_display(members: Seq<StructMemberView>) -> Seq<Seq<char>>
    decreases members, 0nat,
{
    Seq::new(
        members.len(),
        |i: int|
            if 0 <= i < members.len() {
                members[i].id + ": "@ + type_display(members[i].ty)
            } else {
                Seq::empty()
            },
    )
}

/// How a list of types is written: the types, separated by commas.
pub open spec fn types_display(types: Seq<TypeView>) -> Seq<char> {
    join(Seq::new(types.len(), |i: int| type_display(types[i])), ", "@)
}

impl StructLocation {
    fn same(&self, other: &StructLocation) -> (r: bool)
        ensures
            r == (self@ == other@),
    {
        self.module == other.module && self.name == other.name
    }
}

impl StructMember {
    pub fn new(id: String, ty: Type) -> (r: StructMember)
        ensures
            r@ == (StructMemberView { id: id@, ty: ty@ }),
    {
        StructMember { id, ty: Box::new(ty) }
    }

    fn same(&self, other: &StructMember) -> (r: bool)
        ensures
            r == (self@.id == other@.id && same_type(self@.ty, other@.ty)),
        decreases self,
    {
        self.id == other.id && self.ty.same(&other.ty)
    }

    fn copy(&self) -> (r: StructMember)
        ensures
            r@ == self@,
        decreases self,
    {
        StructMember { id: self.id.clone(), ty: Box::new(self.ty.copy()) }
    }
}

impl ArrayType {
    pub fn new(ty: Type, size: usize) -> (r: ArrayType)
        ensures
            r@ == TypeView::Array(Box::new(ty@), size as nat),
    {
        ArrayType { size, ty: Box::new(ty) }
    }
}

impl StructType {
    /// The struct type declared in `module` under `name`.
    pub fn new(module: String, name: String, members: Vec<StructMember>) -> (r: StructType)
        ensures
            r@.canonical_location == (StructLocationView { module: module@, name: name@ }),
            r@.location is None,
            r@.members == members_view(members@),
    {
        let r = StructType {
            canonical_location: StructLocation { module, name },
            location: None,
            members,
        };
        assert(r@.members =~= members_view(members@));
        r
    }

    pub fn len(&self) -> (r: usize)
        ensures
            r == self@.members.len(),
    {
        self.members.len()
    }

    /// The name under which the type is known here.
    pub fn name(&self) -> (r: &str)
        ensures
            r@ == self@.name(),
    {
        match &self.location {
            Some(l) => l.name.as_str(),
            None => self.canonical_location.name.as_str(),
        }
    }

    /// The module in which the type is known under `name`.
    pub fn module(&self) -> (r: &str)
        ensures
            r@ == self@.module(),
    {
        match &self.location {
            Some(l) => l.module.as_str(),
            None => self.canonical_location.module.as_str(),
        }
    }

    /// The first member called `id`.
    pub fn find_member(&self, id: &str) -> (r: Option<&StructMember>)
        ensures
            r is Some <==> self@.has_member(id@),
            r matches Some(m) ==> m@ == self@.members[self@.position(id@) as int],
    {
        let mut i: usize = 0;
        let ghost all = self@.members;
        while i < self.members.len()
            invariant
                i <= self.members.len(),
                all == self@.members,
                forall|j: int| 0 <= j < i ==> all[j].id != id@,
            decreases self.members.len() - i,
        {
            assert(all[i as int] == self.members[i as int]@);
            if crate::text::str_eq(self.members[i].id.as_str(), id) {
                proof {
                    lemma_first_member(all, id@);
                }
                return Some(&self.members[i]);
            }
            i += 1;
        }
        proof {
            lemma_first_member(all, id@);
        }
        None
    }

    fn same(&self, other: &StructType) -> (r: bool)
        ensures
            r == same_type(TypeView::Struct(self@), TypeView::Struct(other@)),
        decreases self,
    {
        if !self.canonical_location.same(&other.canonical_location) {
            return false;
        }
        if self.members.len() != other.members.len() {
            return false;
        }
        let mut i: usize = 0;
        while i < self.members.len()
            invariant
                i <= self.members.len(),
                self.members.len() == other.members.len(),
                forall|j: int|
                    0 <= j < i ==> (#[trigger] self@.members[j]).id == other@.members[j].id
                        && same_type(self@.members[j].ty, other@.members[j].ty),
            decreases self.members.len() - i,
        {
            assert(self@.members[i as int] == self.members[i as int]@);
            assert(other@.members[i as int] == other.members[i as int]@);
            let eq = self.members[i].same(&other.members[i]);
            assert(eq == (self@.members[i as int].id == other@.members[i as int].id && same_type(
                self@.members[i as int].ty,
                other@.members[i as int].ty,
            )));
            if !eq {
                assert(!(self@.members[i as int].id == other@.members[i as int].id && same_type(
                    self@.members[i as int].ty,
                    other@.members[i as int].ty,
                )));
                return false;
            }
            assert(self@.members[i as int].id == other@.members[i as int].id);
            assert(same_type(self@.members[i as int].ty, other@.members[i as int].ty));
            i += 1;
        }
        assert(self@.members.len() == other@.members.len());
        assert(self@.canonical_location == other@.canonical_location);
        true
    }

    fn copy(&self) -> (r: StructType)
        ensures
            r@ == self@,
        decreases self,
    {
        let mut members: Vec<StructMember> = Vec::new();
        let mut i: usize = 0;
        while i < self.members.len()
            invariant
                i <= self.members.len(),
                members.len() == i,
                forall|j: int| 0 <= j < i ==> members[j]@ == self.members[j]@,
            decreases self.members.len() - i,
        {
            members.push(self.members[i].copy());
            i += 1;
        }
        let r = StructType {
            canonical_location: self.canonical_location.clone(),
            location: match &self.location {
                Some(l) => Some(l.clone()),
                None => None,
            },
            members,
        };
        assert(r@.members =~= self@.members);
        r
    }

    /// The same type, known under `name` in `module`.
    pub fn renamed(self, module: String, name: String) -> (r: StructType)
        ensures
            r@ == (StructTypeView {
                location: Some(StructLocationView { module: module@, name: name@ }),
                ..self@
            }),
    {
        let r = StructType {
            canonical_location: self.canonical_location,
            location: Some(StructLocation { module, name }),
            members: self.members,
        };
        assert(r@.members =~= self@.members);
        r
    }
}

/// The views of a list of struct members.
pub open spec fn members_view(members: Seq<StructMember>) -> Seq<StructMemberView> {
    Seq::new(members.len(), |i: int| members[i]@)
}

impl Type {
    pub fn array(ty: Type, size: usize) -> (r: Type)
        ensures
            r@ == TypeView::Array(Box::new(ty@), size as nat),
    {
        Type::Array(ArrayType::new(ty, size))
    }

    pub fn struc(struct_ty: StructType) -> (r: Type)
        ensures
            r@ == TypeView::Struct(struct_ty@),
    {
        Type::Struct(struct_ty)
    }

    pub fn uint(bitwidth: UBitwidth) -> (r: Type)
        ensures
            r@ == TypeView::Uint(bitwidth),
    {
        Type::Uint(bitwidth)
    }

    /// Type equality.
    pub fn same(&self, other: &Type) -> (r: bool)
        ensures
            r == same_type(self@, other@),
        decreases self,
    {
        match (self, other) {
            (Type::FieldElement, Type::FieldElement) => true,
            (Type::Boolean, Type::Boolean) => true,
            (Type::Uint(x), Type::Uint(y)) => *x == *y,
            (Type::Array(x), Type::Array(y)) => x.size == y.size && x.ty.same(&y.ty),
            (Type::Struct(x), Type::Struct(y)) => x.same(y),
            _ => false,
        }
    }

    fn copy(&self) -> (r: Type)
        ensures
            r@ == self@,
        decreases self,
    {
        match self {
            Type::FieldElement => Type::FieldElement,
            Type::Boolean => Type::Boolean,
            Type::Uint(w) => Type::Uint(*w),
            Type::Array(a) => Type::Array(ArrayType { size: a.size, ty: Box::new(a.ty.copy()) }),
            Type::Struct(s) => Type::Struct(s.copy()),
        }
    }

    /// The type as text.
    pub fn to_string(&self) -> (r: String)
        ensures
            r@ == type_display(self@),
        decreases self,
    {
        match self {
            Type::FieldElement => String::from_str("field"),
            Type::Boolean => String::from_str("bool"),
            Type::Uint(w) => {
                let mut s = String::from_str("u");
                let n = usize_to_dec(w.to_usize());
                s.append(n.as_str());
                s
            },
            Type::Array(a) => {
                let mut s = a.ty.to_string();
                s.append("[");
                let n = usize_to_dec(a.size);
                s.append(n.as_str());
                s.append("]");
                s
            },
            Type::Struct(st) => {
                let mut list = String::new();
                let mut i: usize = 0;
                let ghost sv = st@;
                let ghost items = members_display(sv.members);
                assert(items.take(0) =~= Seq::<Seq<char>>::empty());
                while i < st.members.len()
                    invariant
                        i <= st.members.len(),
                        sv == st@,
                        *self == Type::Struct(*st),
                        items.len() == st.members.len(),
                        forall|j: int|
                            0 <= j < items.len() ==> items[j] == sv.members[j].id + ": "@
                                + type_display(sv.members[j].ty),
                        list@ == join(items.take(i as int), ", "@),
                    decreases st.members.len() - i,
                {
                    let m = &st.members[i];
                    assert(sv.members[i as int] == m@);
                    assert(*self is Struct);
                    assert(decreases_to!(*self => self->Struct_0));
                    assert(decreases_to!(*st => st.members));
                    assert(decreases_to!(st.members => st.members[i as int]));
                    assert(decreases_to!(*m => m.ty));
                    let mut item = m.id.clone();
                    item.append(": ");
                    let t = m.ty.to_string();
                    item.append(t.as_str());
                    proof {
                        assert(items.take(i + 1).drop_last() =~= items.take(i as int));
                    }
                    push_joined(&mut list, i, ", ", item.as_str(), Ghost(items.take(i + 1)));
                    i += 1;
                }
                assert(items.take(i as int) =~= items);
                let mut s = String::from_str(st.name());
                s.append(" {");
                s.append(list.as_str());
                s.append("}");
                s
            },
        }
    }
}

impl Clone for StructMember {
    fn clone(&self) -> (r: Self)
        ensures
            r@ == self@,
    {
        self.copy()
    }
}

impl Clone for ArrayType {
    fn clone(&self) -> (r: Self)
        ensures
            r@ == self@,
    {
        ArrayType { size: self.size, ty: Box::new(self.ty.copy()) }
    }
}

impl Clone for StructType {
    fn clone(&self) -> (r: Self)
        ensures
            r@ == self@,
    {
        self.copy()
    }
}

impl Clone for Type {
    fn clone(&self) -> (r: Self)
        ensures
            r@ == self@,
    {
        self.copy()
    }
}

impl PartialEq for StructMember {
    fn eq(&self, other: &Self) -> (r: bool) {
        self.same(other)
    }
}

impl PartialEqSpecImpl for StructMember {
    open spec fn obeys_eq_spec() -> bool {
        true
    }

    open spec fn eq_spec(&self, other: &Self) -> bool {
        self@.id == other@.id && same_type(self@.ty, other@.ty)
    }
}

impl PartialEq for ArrayType {
    fn eq(&self, other: &Self) -> (r: bool) {
        self.size == other.size && self.ty.same(&other.ty)
    }
}

impl PartialEqSpecImpl for ArrayType {
    open spec fn obeys_eq_spec() -> bool {
        true
    }

    open spec fn eq_spec(&self, other: &Self) -> bool {
        same_type(self@, other@)
    }
}

impl PartialEq for StructType {
    fn eq(&self, other: &Self) -> (r: bool) {
        self.same(other)
    }
}

impl PartialEqSpecImpl for StructType {
    open spec fn obeys_eq_spec() -> bool {
        true
    }

    open spec fn eq_spec(&self, other: &Self) -> bool {
        same_type(TypeView::Struct(self@), TypeView::Struct(other@))
    }
}

impl PartialEq for Type {
    fn eq(&self, other: &Self) -> (r: bool) {
        self.same(other)
    }
}

impl PartialEqSpecImpl for Type {
    open spec fn obeys_eq_spec() -> bool {
        true
    }

    open spec fn eq_spec(&self, other: &Self) -> bool {
        same_type(self@, other@)
    }
}

/// Whether two lists of types are equal type by type.
pub fn types_same(a: &Vec<Type>, b: &Vec<Type>) -> (r: bool)
    ensures
        r == same_types(types_view(a@), types_view(b@)),
{
    if a.len() != b.len() {
        return false;
    }
    let mut i: usize = 0;
    while i < a.len()
        invariant
            i <= a.len(),
            a.len() == b.len(),
            forall|j: int|
                0 <= j < i ==> #[trigger] same_type(types_view(a@)[j], types_view(b@)[j]),
        decreases a.len() - i,
    {
        if !a[i].same(&b[i]) {
            assert(!same_type(types_view(a@)[i as int], types_view(b@)[i as int]));
            return false;
        }
        i += 1;
    }
    true
}

/// A copy of a list of types.
pub fn types_copy(v: &Vec<Type>) -> (r: Vec<Type>)
    ensures
        types_view(r@) == types_view(v@),
{
    let mut out: Vec<Type> = Vec::new();
    let mut i: usize = 0;
    while i < v.len()
        invariant
            i <= v.len(),
            out.len() == i,
            forall|j: int| 0 <= j < i ==> out[j]@ == v[j]@,
        decreases v.len() - i,
    {
        out.push(v[i].clone());
        i += 1;
    }
    assert(types_view(out@) =~= types_view(v@));
    out
}

/// A list of types as text.
pub fn types_to_string(v: &Vec<Type>) -> (r: String)
    ensures
        r@ == types_display(types_view(v@)),
{
    let mut list = String::new();
    let mut i: usize = 0;
    let ghost tv = types_view(v@);
    let ghost items = Seq::new(tv.len(), |i: int| type_display(tv[i]));
    assert(items.take(0) =~= Seq::<Seq<char>>::empty());
    while i < v.len()
        invariant
            i <= v.len(),
            tv == types_view(v@),
            items == Seq::new(tv.len(), |i: int| type_display(tv[i])),
            list@ == join(items.take(i as int), ", "@),
        decreases v.len() - i,
    {
        let t = v[i].to_string();
        proof {
            assert(items.take(i + 1).drop_last() =~= items.take(i as int));
        }
        push_joined(&mut list, i, ", ", t.as_str(), Ghost(items.take(i + 1)));
        i += 1;
    }
    assert(items.take(i as int) =~= items);
    list
}

/// The signature of a function: the types it takes and the types it returns.
#[derive(Debug, Eq)]
pub struct Signature {
    pub inputs: Vec<Type>,
    pub outputs: Vec<Type>,
}

pub struct SignatureView {
    pub inputs: Seq<TypeView>,
    pub outputs: Seq<TypeView>,
}

impl View for Signature {
    type V = SignatureView;

    open spec fn view(&self) -> SignatureView {
        SignatureView { inputs: types_view(self.inputs@), outputs: types_view(self.outputs@) }
    }
}

/// Signature equality: the inputs are equal type by type, and so are the
/// outputs.
pub open spec fn same_signature(a: SignatureView, b: SignatureView) -> bool {
    same_types(a.inputs, b.inputs) && same_types(a.outputs, b.outputs)
}

/// How a signature is written.
pub open spec fn signature_display(s: SignatureView) -> Seq<char> {
    "("@ + types_display(s.inputs) + ")"@ + (if s.outputs.len() == 0 {
        Seq::empty()
    } else if s.outputs.len() == 1 {
        " -> "@ + type_display(s.outputs[0])
    } else {
        " -> ("@ + types_display(s.outputs) + ")"@
    })
}

impl Signature {
    /// The signature that takes nothing and returns nothing.
    pub fn new() -> (r: Signature)
        ensures
            r@ == (SignatureView { inputs: Seq::empty(), outputs: Seq::empty() }),
    {
        let r = Signature { inputs: Vec::new(), outputs: Vec::new() };
        assert(r@.inputs =~= Seq::<TypeView>::empty());
        assert(r@.outputs =~= Seq::<TypeView>::empty());
        r
    }

    pub fn inputs(self, inputs: Vec<Type>) -> (r: Signature)
        ensures
            r@ == (SignatureView { inputs: types_view(inputs@), ..self@ }),
    {
        Signature { inputs, outputs: self.outputs }
    }

    pub fn outputs(self, outputs: Vec<Type>) -> (r: Signature)
        ensures
            r@ == (SignatureView { outputs: types_view(outputs@), ..self@ }),
    {
        Signature { inputs: self.inputs, outputs }
    }

    /// Signature equality.
    pub fn same(&self, other: &Signature) -> (r: bool)
        ensures
            r == same_signature(self@, other@),
    {
        types_same(&self.inputs, &other.inputs) && types_same(&self.outputs, &other.outputs)
    }

    /// The signature as text.
    pub fn to_string(&self) -> (r: String)
        ensures
            r@ == signature_display(self@),
    {
        let mut s = String::from_str("(");
        let ins = types_to_string(&self.inputs);
        s.append(ins.as_str());
        s.append(")");
        let ghost head = s@;
        if self.outputs.len() == 0 {
            assert(s@ =~= head + Seq::<char>::empty());
        } else if self.outputs.len() == 1 {
            let t = self.outputs[0].to_string();
            let mut tail = String::from_str(" -> ");
            tail.append(t.as_str());
            s.append(tail.as_str());
        } else {
            let outs = types_to_string(&self.outputs);
            let mut tail = String::from_str(" -> (");
            tail.append(outs.as_str());
            tail.append(")");
            s.append(tail.as_str());
        }
        s
    }
}

impl Clone for Signature {
    fn clone(&self) -> (r: Self)
        ensures
            r@ == self@,
    {
        Signature { inputs: types_copy(&self.inputs), outputs: types_copy(&self.outputs) }
    }
}

impl PartialEq for Signature {
    fn eq(&self, other: &Self) -> (r: bool) {
        self.same(other)
    }
}

impl PartialEqSpecImpl for Signature {
    open spec fn obeys_eq_spec() -> bool {
        true
    }

    open spec fn eq_spec(&self, other: &Self) -> bool {
        same_signature(self@, other@)
    }
}

/// What a function is looked up by: its name and its signature. Functions of
/// one name and different signatures are different functions.
#[derive(Debug, Eq)]
pub struct FunctionKey {
    pub id: String,
    pub signature: Signature,
}

pub struct FunctionKeyView {
    pub id: Seq<char>,
    pub signature: SignatureView,
}

impl View for FunctionKey {
    type V = FunctionKeyView;

    open spec fn view(&self) -> FunctionKeyView {
        FunctionKeyView { id: self.id@, signature: self.signature@ }
    }
}

/// Key equality: the same name and equal signatures.
pub open spec fn same_key(a: FunctionKeyView, b: FunctionKeyView) -> bool {
    a.id == b.id && same_signature(a.signature, b.signature)
}

impl FunctionKey {
    /// The key of the function of that name that takes and returns nothing.
    pub fn with_id(id: &str) -> (r: FunctionKey)
        ensures
            r@.id == id@,
            r@.signature == (SignatureView { inputs: Seq::empty(), outputs: Seq::empty() }),
    {
        FunctionKey { id: String::from_str(id), signature: Signature::new() }
    }

    pub fn signature(self, signature: Signature) -> (r: FunctionKey)
        ensures
            r@ == (FunctionKeyView { id: self@.id, signature: signature@ }),
    {
        FunctionKey { id: self.id, signature }
    }

    pub fn id(self, id: &str) -> (r: FunctionKey)
        ensures
            r@ == (FunctionKeyView { id: id@, signature: self@.signature }),
    {
        FunctionKey { id: String::from_str(id), signature: self.signature }
    }

    /// Key equality.
    pub fn same(&self, other: &FunctionKey) -> (r: bool)
        ensures
            r == same_key(self@, other@),
    {
        self.id == other.id && self.signature.same(&other.signature)
    }
}

impl Clone for FunctionKey {
    fn clone(&self) -> (r: Self)
        ensures
            r@ == self@,
    {
        FunctionKey { id: self.id.clone(), signature: self.signature.clone() }
    }
}

impl PartialEq for FunctionKey {
    fn eq(&self, other: &Self) -> (r: bool) {
        self.same(other)
    }
}

impl PartialEqSpecImpl for FunctionKey {
    open spec fn obeys_eq_spec() -> bool {
        true
    }

    open spec fn eq_spec(&self, other: &Self) -> bool {
        same_key(self@, other@)
    }
}

/// Every type equals itself.
pub proof fn law_same_type_reflexive(t: TypeView)
    ensures
        same_type(t, t),
    decreases t,
{
    match t {
        TypeView::Array(x, _) => {
            law_same_type_reflexive(*x);
        },
        TypeView::Struct(s) => {
            assert forall|i: int| 0 <= i < s.members.len() implies (#[trigger] s.members[i]).id
                == s.members[i].id && same_type(s.members[i].ty, s.members[i].ty) by {
                law_same_type_reflexive(s.members[i].ty);
            }
        },
        _ => {},
    }
}

/// Type equality is symmetric.
pub proof fn law_same_type_symmetric(a: TypeView, b: TypeView)
    requires
        same_type(a, b),
    ensures
        same_type(b, a),
    decreases a,
{
    match (a, b) {
        (TypeView::Array(x, _), TypeView::Array(y, _)) => {
            law_same_type_symmetric(*x, *y);
        },
        (TypeView::Struct(x), TypeView::Struct(y)) => {
            assert forall|i: int| 0 <= i < y.members.len() implies (#[trigger] y.members[i]).id
                == x.members[i].id && same_type(y.members[i].ty, x.members[i].ty) by {
                assert(x.members[i].id == y.members[i].id);
                law_same_type_symmetric(x.members[i].ty, y.members[i].ty);
            }
        },
        _ => {},
    }
}

/// Type equality is transitive.
pub proof fn law_same_type_transitive(a: TypeView, b: TypeView, c: TypeView)
    requires
        same_type(a, b),
        same_type(b, c),
    ensures
        same_type(a, c),
    decreases a,
{
    match (a, b, c) {
        (TypeView::Array(x, _), TypeView::Array(y, _), TypeView::Array(z, _)) => {
            law_same_type_transitive(*x, *y, *z);
        },
        (TypeView::Struct(x), TypeView::Struct(y), TypeView::Struct(z)) => {
            assert forall|i: int| 0 <= i < x.members.len() implies (#[trigger] x.members[i]).id
                == z.members[i].id && same_type(x.members[i].ty, z.members[i].ty) by {
                assert(x.members[i].id == y.members[i].id);
                assert(y.members[i].id == z.members[i].id);
                law_same_type_transitive(x.members[i].ty, y.members[i].ty, z.members[i].ty);
            }
        },
        _ => {},
    }
}

} // verus!
