//! Value types and function signatures.

use vstd::prelude::*;

verus! {

/// The type of a value, of a pointer or of a function.
#[derive(Debug)]
pub enum Type {
    Void,
    /// `unsigned char`
    Uint8,
    /// `unsigned short`
    Uint16,
    /// `unsigned int`
    Uint32,
    /// `unsigned long`
    Uint64,
    /// `signed char`
    Int8,
    /// `signed short`
    Int16,
    /// `signed int`
    Int32,
    /// `signed long`
    Int64,
    /// Named by the language, handled by no later stage.
    Float,
    /// Named by the language, handled by no later stage.
    Double,
    /// A pointer; an array is a pointer to its first element.
    Pointer(Box<Type>),
    Function(Box<FunctionType>),
}

/// A function's signature: what it returns and what it takes, in order.
/// `Void` is a return type like any other. A parameter's name serves to bind
/// it inside the body and plays no part in comparing signatures.
#[derive(Debug)]
pub struct FunctionType {
    pub return_type: Type,
    pub args: Vec<(String, Type)>,
}

/// The mathematical value of a [`Type`].
pub enum TypeView {
    Void,
    Uint8,
    Uint16,
    Uint32,
    Uint64,
    Int8,
    Int16,
    Int32,
    Int64,
    Float,
    Double,
    Pointer(Box<TypeView>),
    Function(Box<FunctionTypeView>),
}

/// The mathematical value of a [`FunctionType`].
pub struct FunctionTypeView {
    pub return_type: TypeView,
    pub args: Seq<(Seq<char>, TypeView)>,
}

impl View for Type {
    type V = TypeView;

    open spec fn view(&self) -> TypeView {
        self.model()
    }
}

impl View for FunctionType {
    type V = FunctionTypeView;

    open spec fn view(&self) -> FunctionTypeView {
        self.model()
    }
}

impl FunctionType {
    /// The value that this signature stands for.
    pub open spec fn model(&self) -> FunctionTypeView
        decreases self,
    {
        FunctionTypeView {
            return_type: self.return_type.model(),
            args: Seq::new(
                self.args@.len(),
                |i: int|
                    if 0 <= i < self.args@.len() {
                        (self.args@[i].0@, self.args@[i].1.model())
                    } else {
                        (Seq::empty(), TypeView::Void)
                    },
            ),
        }
    }
}

impl TypeView {
    /// Whether the type is one of the eight integer types.
    pub open spec fn is_integer(self) -> bool {
        ||| self is Uint8
        ||| self is Uint16
        ||| self is Uint32
        ||| self is Uint64
        ||| self is Int8
        ||| self is Int16
        ||| self is Int32
        ||| self is Int64
    }

    /// Whether the type is one of the four signed integer types.
    pub open spec fn is_signed(self) -> bool {
        self is Int8 || self is Int16 || self is Int32 || self is Int64
    }

    /// Equality of types: two types are equal when they are built alike, where
    /// two function types are built alike when their return types are equal,
    /// they take equally many parameters, and their parameters' types are
    /// equal position by position. Parameter names are not looked at.
    pub open spec fn same(self, other: TypeView) -> bool
        decreases self,
    {
        match (self, other) {
            (TypeView::Pointer(a), TypeView::Pointer(b)) => a.same(*b),
            (TypeView::Function(f), TypeView::Function(g)) => {
                &&& f.return_type.same(g.return_type)
                &&& f.args.len() == g.args.len()
                &&& forall|i: int|
                    0 <= i < f.args.len() ==> (#[trigger] f.args[i]).1.same(g.args[i].1)
            },
            (TypeView::Pointer(_), _) => false,
            (_, TypeView::Pointer(_)) => false,
            (TypeView::Function(_), _) => false,
            (_, TypeView::Function(_)) => false,
            _ => self == other,
        }
    }
}

/// Equality of types is an equivalence: every type equals itself, two types
/// are equal whichever is asked first, and two types that equal a third are
/// equal.
pub proof fn lemma_same_is_an_equivalence(a: TypeView, b: TypeView, c: TypeView)
    ensures
        a.same(a),
        a.same(b) == b.same(a),
        a.same(b) && b.same(c) ==> a.same(c),
    decreases a,
{
    match a {
        TypeView::Pointer(x) => {
            match (b, c) {
                (TypeView::Pointer(y), TypeView::Pointer(z)) => {
                    lemma_same_is_an_equivalence(*x, *y, *z);
                },
                (TypeView::Pointer(y), _) => {
                    lemma_same_is_an_equivalence(*x, *y, *y);
                },
                _ => {
                    lemma_same_is_an_equivalence(*x, *x, *x);
                },
            }
        },
        TypeView::Function(f) => {
            lemma_same_is_an_equivalence(f.return_type, f.return_type, f.return_type);
            assert forall|i: int| 0 <= i < f.args.len() implies (#[trigger] f.args[i]).1.same(
                f.args[i].1,
            ) by {
                lemma_same_is_an_equivalence(f.args[i].1, f.args[i].1, f.args[i].1);
            }
            match b {
                TypeView::Function(g) => {
                    lemma_same_is_an_equivalence(f.return_type, g.return_type, g.return_type);
                    if f.args.len() == g.args.len() {
                        assert forall|i: int| 0 <= i < f.args.len() implies (
                        #[trigger] f.args[i]).1.same(g.args[i].1) == (#[trigger] g.args[i]).1.same(
                            f.args[i].1,
                        ) by {
                            lemma_same_is_an_equivalence(f.args[i].1, g.args[i].1, g.args[i].1);
                        }
                    }
                    match c {
                        TypeView::Function(h) => {
                            lemma_same_is_an_equivalence(
                                f.return_type,
                                g.return_type,
                                h.return_type,
                            );
                            if a.same(b) && b.same(c) {
                                assert forall|i: int| 0 <= i < f.args.len() implies (
                                #[trigger] f.args[i]).1.same(h.args[i].1) by {
                                    assert(f.args[i].1.same(g.args[i].1));
                                    assert(g.args[i].1.same(h.args[i].1));
                                    lemma_same_is_an_equivalence(
                                        f.args[i].1,
                                        g.args[i].1,
                                        h.args[i].1,
                                    );
                                }
                            }
                        },
                        _ => {},
                    }
                },
                _ => {},
            }
        },
        _ => {},
    }
}

impl Type {
    /// The value that this type stands for.
    pub open spec fn model(&self) -> TypeView
        decreases self,
    {
        match self {
            Type::Void => TypeView::Void,
            Type::Uint8 => TypeView::Uint8,
            Type::Uint16 => TypeView::Uint16,
            Type::Uint32 => TypeView::Uint32,
            Type::Uint64 => TypeView::Uint64,
            Type::Int8 => TypeView::Int8,
            Type::Int16 => TypeView::Int16,
            Type::Int32 => TypeView::Int32,
            Type::Int64 => TypeView::Int64,
            Type::Float => TypeView::Float,
            Type::Double => TypeView::Double,
            Type::Pointer(inner) => TypeView::Pointer(Box::new(inner.model())),
            Type::Function(f) => TypeView::Function(Box::new(f.model())),
        }
    }

    /// Whether the type is one of the eight integer types.
    pub fn is_integer(&self) -> (r: bool)
        ensures
            r == self@.is_integer(),
    {
        match self {
            Type::Uint8 | Type::Uint16 | Type::Uint32 | Type::Uint64 | Type::Int8 | Type::Int16
            | Type::Int32 | Type::Int64 => true,
            _ => false,
        }
    }

    /// Whether the type is one of the four signed integer types.
    pub fn is_signed(&self) -> (r: bool)
        ensures
            r == self@.is_signed(),
    {
        match self {
            Type::Int8 | Type::Int16 | Type::Int32 | Type::Int64 => true,
            _ => false,
        }
    }

    /// Compares two types; this is what `==` computes.
    pub fn same_as(&self, other: &Type) -> (r: bool)
        ensures
            r == self@.same(other@),
        decreases *self,
    {
        match (self, other) {
            (Type::Pointer(a), Type::Pointer(b)) => a.same_as(b),
            (Type::Function(f), Type::Function(g)) => {
                if !f.return_type.same_as(&g.return_type) {
                    return false;
                }
                if f.args.len() != g.args.len() {
                    return false;
                }
                let mut i: usize = 0;
                while i < f.args.len()
                    invariant
                        decreases_to!(*self => f.args),
                        f.args@.len() == g.args@.len(),
                        self@ == TypeView::Function(Box::new(f@)),
                        other@ == TypeView::Function(Box::new(g@)),
                        f.return_type@.same(g.return_type@),
                        forall|j: int|
                            0 <= j < i ==> (#[trigger] f.args@[j]).1@.same(g.args@[j].1@),
                    decreases f.args.len() - i,
                {
                    proof {
                        assert(decreases_to!(*self => f.args[i as int].1));
                    }
                    if !f.args[i].1.same_as(&g.args[i].1) {
                        proof {
                            assert(f@.args[i as int].1 == f.args@[i as int].1@);
                            assert(g@.args[i as int].1 == g.args@[i as int].1@);
                        }
                        return false;
                    }
                    i += 1;
                }
                proof {
                    assert forall|j: int| 0 <= j < f@.args.len() implies (
                    #[trigger] f@.args[j]).1.same(g@.args[j].1) by {
                        assert(f.args@[j].1@.same(g.args@[j].1@));
                    }
                }
                true
            },
            (Type::Void, Type::Void) => true,
            (Type::Uint8, Type::Uint8) => true,
            (Type::Uint16, Type::Uint16) => true,
            (Type::Uint32, Type::Uint32) => true,
            (Type::Uint64, Type::Uint64) => true,
            (Type::Int8, Type::Int8) => true,
            (Type::Int16, Type::Int16) => true,
            (Type::Int32, Type::Int32) => true,
            (Type::Int64, Type::Int64) => true,
            (Type::Float, Type::Float) => true,
            (Type::Double, Type::Double) => true,
            _ => false,
        }
    }

    /// A copy of the type, built anew.
    fn duplicate(&self) -> (r: Self)
        ensures
            r@ == self@,
        decreases *self,
    {
        match self {
            Type::Void => Type::Void,
            Type::Uint8 => Type::Uint8,
            Type::Uint16 => Type::Uint16,
            Type::Uint32 => Type::Uint32,
            Type::Uint64 => Type::Uint64,
            Type::Int8 => Type::Int8,
            Type::Int16 => Type::Int16,
            Type::Int32 => Type::Int32,
            Type::Int64 => Type::Int64,
            Type::Float => Type::Float,
            Type::Double => Type::Double,
            Type::Pointer(inner) => Type::Pointer(Box::new(inner.duplicate())),
            Type::Function(f) => {
                let return_type = f.return_type.duplicate();
                let mut args: Vec<(String, Type)> = Vec::new();
                let mut i: usize = 0;
                while i < f.args.len()
                    invariant
                        decreases_to!(*self => f.args),
                        i <= f.args.len(),
                        args@.len() == i,
                        forall|j: int|
                            0 <= j < i ==> (#[trigger] args@[j]).0@ == f.args@[j].0@ && args@[j].1@
                                == f.args@[j].1@,
                    decreases f.args.len() - i,
                {
                    proof {
                        assert(decreases_to!(*self => f.args[i as int].1));
                    }
                    let name = f.args[i].0.clone();
                    let t = f.args[i].1.duplicate();
                    args.push((name, t));
                    i += 1;
                }
                let copy = FunctionType { return_type, args };
                proof {
                    assert(copy@.args =~= f@.args);
                }
                Type::Function(Box::new(copy))
            },
        }
    }
}

impl Clone for Type {
    fn clone(&self) -> (r: Self)
        ensures
            r@ == self@,
    {
        self.duplicate()
    }
}

impl Clone for FunctionType {
    fn clone(&self) -> (r: Self)
        ensures
            r@ == self@,
    {
        let return_type = self.return_type.clone();
        let mut args: Vec<(String, Type)> = Vec::new();
        let mut i: usize = 0;
        while i < self.args.len()
            invariant
                i <= self.args.len(),
                args@.len() == i,
                forall|j: int|
                    0 <= j < i ==> (#[trigger] args@[j]).0@ == self.args@[j].0@ && args@[j].1@
                        == self.args@[j].1@,
            decreases self.args.len() - i,
        {
            let name = self.args[i].0.clone();
            let t = self.args[i].1.clone();
            args.push((name, t));
            i += 1;
        }
        let copy = FunctionType { return_type, args };
        proof {
            assert(copy@.args =~= self@.args);
        }
        copy
    }
}

impl PartialEq for Type {
    fn eq(&self, other: &Self) -> (r: bool) {
        self.same_as(other)
    }
}

impl vstd::std_specs::cmp::PartialEqSpecImpl for Type {
    open spec fn obeys_eq_spec() -> bool {
        true
    }

    open spec fn eq_spec(&self, other: &Self) -> bool {
        self@.same(other@)
    }
}

impl PartialEq for FunctionType {
    fn eq(&self, other: &Self) -> (r: bool) {
        if !self.return_type.same_as(&other.return_type) {
            return false;
        }
        if self.args.len() != other.args.len() {
            return false;
        }
        let mut i: usize = 0;
        while i < self.args.len()
            invariant
                self.args@.len() == other.args@.len(),
                forall|j: int|
                    0 <= j < i ==> (#[trigger] self.args@[j]).1@.same(other.args@[j].1@),
            decreases self.args.len() - i,
        {
            if !self.args[i].1.same_as(&other.args[i].1) {
                proof {
                    assert(self@.args[i as int].1 == self.args@[i as int].1@);
                    assert(other@.args[i as int].1 == other.args@[i as int].1@);
                }
                return false;
            }
            i += 1;
        }
        proof {
            assert forall|j: int| 0 <= j < self@.args.len() implies (#[trigger] self@.args[j]).1.same(
                other@.args[j].1,
            ) by {
                assert(self.args@[j].1@.same(other.args@[j].1@));
            }
        }
        true
    }
}

impl vstd::std_specs::cmp::PartialEqSpecImpl for FunctionType {
    open spec fn obeys_eq_spec() -> bool {
        true
    }

    open spec fn eq_spec(&self, other: &Self) -> bool {
        TypeView::Function(Box::new(self@)).same(TypeView::Function(Box::new(other@)))
    }
}

} // verus!
