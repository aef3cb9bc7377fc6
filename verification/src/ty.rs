//! The semantic type graph produced by type resolution, together with its
//! specification-level view and a verified structural equality.

use vstd::prelude::*;

verus! {

/// Specification-level mirror of [`TypeConstructor`].
#[verifier::ext_equal]
pub struct TypeConstructorView {
    pub path: Seq<u64>,
    pub arguments: Seq<TypeView>,
}

/// Specification-level mirror of [`Type`].
#[verifier::ext_equal]
pub enum TypeView {
    Constructor(TypeConstructorView),
    Tuple { element_types: Seq<TypeView> },
    Function { parameter_types: Seq<TypeView>, return_type: Box<TypeView> },
    InterfaceObject { bounds: Seq<TypeConstructorView> },
    Unknown,
}

/// A dotted path of interned identifiers, as it stands in a resolved
/// semantic type.
#[derive(Debug)]
pub struct TypePath {
    pub identifiers: Vec<u64>,
}

impl View for TypePath {
    type V = Seq<u64>;

    open spec fn view(&self) -> Seq<u64> {
        self.identifiers@
    }
}

/// A nominal type application: a resolved path plus type arguments.
#[derive(Debug)]
pub struct TypeConstructor {
    pub path: TypePath,
    pub arguments: Vec<Type>,
}

/// A resolved semantic type.
#[derive(Debug)]
pub enum Type {
    /// A nominal type or a generic-parameter reference.
    Constructor(TypeConstructor),
    /// A tuple of element types.
    Tuple { element_types: Vec<Type> },
    /// A function type: parameters and return type.
    Function { parameter_types: Vec<Type>, return_type: Box<Type> },
    /// An anonymous set of interface bounds.
    InterfaceObject { bounds: Vec<TypeConstructor> },
    /// Placeholder for a type that has not been resolved yet.
    Unknown,
}

/// Views of a sequence of semantic types.
pub open spec fn types_deep(s: Seq<Type>) -> Seq<TypeView>
    decreases s,
{
    Seq::new(
        s.len(),
        |i: int|
            if 0 <= i < s.len() {
                s[i].deep_view()
            } else {
                TypeView::Unknown
            },
    )
}

/// Views of a sequence of type constructors.
pub open spec fn ctors_deep(s: Seq<TypeConstructor>) -> Seq<TypeConstructorView>
    decreases s,
{
    Seq::new(
        s.len(),
        |i: int|
            if 0 <= i < s.len() {
                s[i].deep_view()
            } else {
                TypeConstructorView { path: Seq::empty(), arguments: Seq::empty() }
            },
    )
}

impl DeepView for TypeConstructor {
    type V = TypeConstructorView;

    open spec fn deep_view(&self) -> TypeConstructorView
        decreases self,
    {
        TypeConstructorView { path: self.path@, arguments: types_deep(self.arguments@) }
    }
}

impl DeepView for Type {
    type V = TypeView;

    open spec fn deep_view(&self) -> TypeView
        decreases self,
    {
        match self {
            Type::Constructor(c) => TypeView::Constructor(c.deep_view()),
            Type::Tuple { element_types } => TypeView::Tuple {
                element_types: types_deep(element_types@),
            },
            Type::Function { parameter_types, return_type } => TypeView::Function {
                parameter_types: types_deep(parameter_types@),
                return_type: Box::new((**return_type).deep_view()),
            },
            Type::InterfaceObject { bounds } => TypeView::InterfaceObject {
                bounds: ctors_deep(bounds@),
            },
            Type::Unknown => TypeView::Unknown,
        }
    }
}

/// Structural equality of two semantic types, decided executably and
/// reflected in their views.
pub fn type_eq(a: &Type, b: &Type) -> (r: bool)
    ensures
        r <==> a.deep_view() == b.deep_view(),
    decreases a,
{
    match (a, b) {
        (Type::Constructor(ca), Type::Constructor(cb)) => constructor_eq(ca, cb),
        (Type::Tuple { element_types: ea }, Type::Tuple { element_types: eb }) => {
            let r = type_vec_eq(ea, eb);
            proof {
                if r {
                    assert(a.deep_view() =~= b.deep_view());
                }
            }
            r
        },
        (
            Type::Function { parameter_types: pa, return_type: ra },
            Type::Function { parameter_types: pb, return_type: rb },
        ) => {
            let r = type_vec_eq(pa, pb) && type_eq(&**ra, &**rb);
            proof {
                if r {
                    assert(a.deep_view() =~= b.deep_view());
                }
            }
            r
        },
        (Type::InterfaceObject { bounds: ba }, Type::InterfaceObject { bounds: bb }) => {
            let r = constructor_vec_eq(ba, bb);
            proof {
                if r {
                    assert(a.deep_view() =~= b.deep_view());
                }
            }
            r
        },
        (Type::Unknown, Type::Unknown) => true,
        _ => false,
    }
}

/// Structural equality of two type constructors.
pub fn constructor_eq(a: &TypeConstructor, b: &TypeConstructor) -> (r: bool)
    ensures
        r <==> a.deep_view() == b.deep_view(),
    decreases a,
{
    if a.path.identifiers.len() != b.path.identifiers.len() {
        return false;
    }
    let n: usize = a.path.identifiers.len();
    let mut i: usize = 0;
    while i < n
        invariant
            n == a.path.identifiers@.len(),
            n == b.path.identifiers@.len(),
            0 <= i <= n,
            forall|j: int| 0 <= j < i ==> a.path.identifiers@[j] == b.path.identifiers@[j],
        decreases n - i,
    {
        if a.path.identifiers[i] != b.path.identifiers[i] {
            proof {
                assert(a.deep_view().path[i as int] != b.deep_view().path[i as int]);
            }
            return false;
        }
        i += 1;
    }
    let r = type_vec_eq(&a.arguments, &b.arguments);
    proof {
        if r {
            assert(a.deep_view().path =~= b.deep_view().path);
            assert(a.deep_view() =~= b.deep_view());
        }
    }
    r
}

fn type_vec_eq(a: &Vec<Type>, b: &Vec<Type>) -> (r: bool)
    ensures
        r <==> types_deep(a@) == types_deep(b@),
    decreases a,
{
    if a.len() != b.len() {
        proof {
            assert(types_deep(a@).len() != types_deep(b@).len());
        }
        return false;
    }
    let n: usize = a.len();
    let mut i: usize = 0;
    while i < n
        invariant
            n == a@.len(),
            n == b@.len(),
            0 <= i <= n,
            forall|j: int| 0 <= j < i ==> a@[j].deep_view() == b@[j].deep_view(),
        decreases n - i,
    {
        if !type_eq(&a[i], &b[i]) {
            proof {
                assert(types_deep(a@)[i as int] != types_deep(b@)[i as int]);
            }
            return false;
        }
        i += 1;
    }
    proof {
        assert(types_deep(a@) =~= types_deep(b@));
    }
    true
}

fn constructor_vec_eq(a: &Vec<TypeConstructor>, b: &Vec<TypeConstructor>) -> (r: bool)
    ensures
        r <==> ctors_deep(a@) == ctors_deep(b@),
    decreases a,
{
    if a.len() != b.len() {
        proof {
            assert(ctors_deep(a@).len() != ctors_deep(b@).len());
        }
        return false;
    }
    let n: usize = a.len();
    let mut i: usize = 0;
    while i < n
        invariant
            n == a@.len(),
            n == b@.len(),
            0 <= i <= n,
            forall|j: int| 0 <= j < i ==> a@[j].deep_view() == b@[j].deep_view(),
        decreases n - i,
    {
        if !constructor_eq(&a[i], &b[i]) {
            proof {
                assert(ctors_deep(a@)[i as int] != ctors_deep(b@)[i as int]);
            }
            return false;
        }
        i += 1;
    }
    proof {
        assert(ctors_deep(a@) =~= ctors_deep(b@));
    }
    true
}


/// A structurally equal copy of a semantic type.
pub fn type_clone(t: &Type) -> (r: Type)
    ensures
        r.deep_view() == t.deep_view(),
    decreases t,
{
    match t {
        Type::Constructor(c) => Type::Constructor(constructor_clone(c)),
        Type::Tuple { element_types } => {
            let r = Type::Tuple { element_types: type_vec_clone(element_types) };
            proof {
                assert(r.deep_view() =~= t.deep_view());
            }
            r
        },
        Type::Function { parameter_types, return_type } => {
            let r = Type::Function {
                parameter_types: type_vec_clone(parameter_types),
                return_type: Box::new(type_clone(&**return_type)),
            };
            proof {
                assert(r.deep_view() =~= t.deep_view());
            }
            r
        },
        Type::InterfaceObject { bounds } => {
            let r = Type::InterfaceObject { bounds: constructor_vec_clone(bounds) };
            proof {
                assert(r.deep_view() =~= t.deep_view());
            }
            r
        },
        Type::Unknown => Type::Unknown,
    }
}

/// A structurally equal copy of a type constructor.
pub fn constructor_clone(c: &TypeConstructor) -> (r: TypeConstructor)
    ensures
        r.deep_view() == c.deep_view(),
    decreases c,
{
    let n: usize = c.path.identifiers.len();
    let mut ids: Vec<u64> = Vec::new();
    let mut i: usize = 0;
    while i < n
        invariant
            n == c.path.identifiers@.len(),
            0 <= i <= n,
            ids@ == c.path.identifiers@.take(i as int),
        decreases n - i,
    {
        ids.push(c.path.identifiers[i]);
        proof {
            assert(ids@ =~= c.path.identifiers@.take(i + 1));
        }
        i += 1;
    }
    proof {
        assert(c.path.identifiers@.take(n as int) =~= c.path.identifiers@);
    }
    let r = TypeConstructor { path: TypePath { identifiers: ids }, arguments: type_vec_clone(
        &c.arguments,
    ) };
    proof {
        assert(r.deep_view() =~= c.deep_view());
    }
    r
}

fn type_vec_clone(s: &Vec<Type>) -> (r: Vec<Type>)
    ensures
        types_deep(r@) == types_deep(s@),
        r@.len() == s@.len(),
    decreases s,
{
    let n: usize = s.len();
    let mut r: Vec<Type> = Vec::new();
    let mut i: usize = 0;
    while i < n
        invariant
            n == s@.len(),
            0 <= i <= n,
            r@.len() == i,
            forall|j: int| 0 <= j < i ==> (#[trigger] r@[j]).deep_view() == s@[j].deep_view(),
        decreases n - i,
    {
        r.push(type_clone(&s[i]));
        i += 1;
    }
    proof {
        assert(types_deep(r@) =~= types_deep(s@));
    }
    r
}

fn constructor_vec_clone(s: &Vec<TypeConstructor>) -> (r: Vec<TypeConstructor>)
    ensures
        ctors_deep(r@) == ctors_deep(s@),
        r@.len() == s@.len(),
    decreases s,
{
    let n: usize = s.len();
    let mut r: Vec<TypeConstructor> = Vec::new();
    let mut i: usize = 0;
    while i < n
        invariant
            n == s@.len(),
            0 <= i <= n,
            r@.len() == i,
            forall|j: int| 0 <= j < i ==> (#[trigger] r@[j]).deep_view() == s@[j].deep_view(),
        decreases n - i,
    {
        r.push(constructor_clone(&s[i]));
        i += 1;
    }
    proof {
        assert(ctors_deep(r@) =~= ctors_deep(s@));
    }
    r
}


/// Length and elementwise value of a viewed type sequence.
pub broadcast proof fn lemma_types_deep_props(s: Seq<Type>)
    ensures
        (#[trigger] types_deep(s)).len() == s.len(),
        forall|i: int| 0 <= i < s.len() ==> types_deep(s)[i] == #[trigger] s[i].deep_view(),
{
}

/// Length and elementwise value of a viewed constructor sequence.
pub broadcast proof fn lemma_ctors_deep_props(s: Seq<TypeConstructor>)
    ensures
        (#[trigger] ctors_deep(s)).len() == s.len(),
        forall|i: int| 0 <= i < s.len() ==> ctors_deep(s)[i] == #[trigger] s[i].deep_view(),
{
}


/// Definitional unfolding of a type constructor's view.
pub broadcast proof fn lemma_ctor_deep_view(c: TypeConstructor)
    ensures
        (#[trigger] c.deep_view()) == (TypeConstructorView {
            path: c.path@,
            arguments: types_deep(c.arguments@),
        }),
{
}

/// Definitional unfolding of a semantic type's view.
pub broadcast proof fn lemma_type_deep_view(t: Type)
    ensures
        (#[trigger] t.deep_view()) == (match t {
            Type::Constructor(c) => TypeView::Constructor(c.deep_view()),
            Type::Tuple { element_types } => TypeView::Tuple {
                element_types: types_deep(element_types@),
            },
            Type::Function { parameter_types, return_type } => TypeView::Function {
                parameter_types: types_deep(parameter_types@),
                return_type: Box::new(return_type.deep_view()),
            },
            Type::InterfaceObject { bounds } => TypeView::InterfaceObject {
                bounds: ctors_deep(bounds@),
            },
            Type::Unknown => TypeView::Unknown,
        }),
{
}

} // verus!
