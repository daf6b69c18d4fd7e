//! The chain of scopes that the semantic check walks in.

use vstd::prelude::*;
use crate::ast::types::Type;
use crate::ast::types::TypeView;
use crate::error::CompilerError;
use crate::error::SemanticError;
use crate::symbols::find;
use crate::symbols::lemma_table_push;
use crate::symbols::table_of;

verus! {

/// One scope: the names declared in it and, where the scope is that of a
/// function's body, the type that the function returns.
pub struct FrameView {
    pub names: Map<Seq<char>, TypeView>,
    pub function_return: Option<TypeView>,
}

/// A chain of scopes, the outermost first and the current one last. A chain
/// holds at least one scope.
pub struct ContextView {
    pub frames: Seq<FrameView>,
}

impl FrameView {
    /// A scope in which nothing is declared.
    pub open spec fn empty() -> FrameView {
        FrameView { names: Map::empty(), function_return: None }
    }
}

impl ContextView {
    /// The chain that holds the file's scope alone.
    pub open spec fn root() -> ContextView {
        ContextView { frames: seq![FrameView::empty()] }
    }

    /// The chain with a fresh scope opened inside the current one.
    pub open spec fn enter(self) -> ContextView {
        ContextView { frames: self.frames.push(FrameView::empty()) }
    }

    /// The chain without its current scope.
    pub open spec fn outer(self) -> ContextView {
        ContextView { frames: self.frames.drop_last() }
    }

    /// The current scope.
    pub open spec fn current(self) -> FrameView {
        self.frames.last()
    }

    /// Whether the current scope itself declares the name.
    pub open spec fn declares_here(self, name: Seq<char>) -> bool {
        self.current().names.contains_key(name)
    }

    /// The chain with the name declared in the current scope.
    pub open spec fn declare(self, name: Seq<char>, t: TypeView) -> ContextView {
        ContextView {
            frames: self.frames.update(
                self.frames.len() - 1,
                FrameView { names: self.current().names.insert(name, t), ..self.current() },
            ),
        }
    }

    /// The type of the name in the innermost scope that declares it.
    pub open spec fn lookup(self, name: Seq<char>) -> Option<TypeView>
        decreases self.frames.len(),
    {
        if self.frames.len() == 0 {
            None
        } else if self.declares_here(name) {
            Some(self.current().names[name])
        } else {
            self.outer().lookup(name)
        }
    }

    /// The return type of the function whose body the current scope lies in.
    pub open spec fn return_type(self) -> Option<TypeView>
        decreases self.frames.len(),
    {
        if self.frames.len() == 0 {
            None
        } else if self.current().function_return is Some {
            self.current().function_return
        } else {
            self.outer().return_type()
        }
    }

    /// The chain with the current scope marked as the body of a function
    /// that returns `t`.
    pub open spec fn mark_function(self, t: TypeView) -> ContextView {
        ContextView {
            frames: self.frames.update(
                self.frames.len() - 1,
                FrameView { function_return: Some(t), ..self.current() },
            ),
        }
    }
}

/// Shadowing: once a name is declared in a scope, a scope opened inside it
/// does not hold the name, so the name can be declared there again with any
/// type; the inner declaration is then the one that is seen, and the outer
/// one is seen again when the inner scope is left. In the scope that holds
/// the name, a second declaration finds the name taken, whatever its type.
pub proof fn lemma_shadowing(ctx: ContextView, name: Seq<char>, t1: TypeView, t2: TypeView)
    requires
        ctx.frames.len() >= 1,
    ensures
        ctx.declare(name, t1).declares_here(name),
        !ctx.declare(name, t1).enter().declares_here(name),
        ctx.declare(name, t1).enter().declare(name, t2).lookup(name) == Some(t2),
        ctx.declare(name, t1).enter().declare(name, t2).outer().lookup(name) == Some(t1),
{
    let outer = ctx.declare(name, t1);
    let inner = outer.enter().declare(name, t2);
    assert(inner.outer().frames =~= outer.frames);
}

/// A scope of the program under check, with a link to the scope around it.
/// Names are added to this scope only; they are looked up from here outwards.
pub struct Context<'a> {
    scope: Vec<(String, Type)>,
    function_return: Option<Type>,
    parent: Option<&'a Context<'a>>,
}

impl<'a> View for Context<'a> {
    type V = ContextView;

    closed spec fn view(&self) -> ContextView {
        self.model()
    }
}

impl<'a> Context<'a> {
    /// This scope alone, without the scopes around it.
    pub closed spec fn frame(&self) -> FrameView {
        FrameView {
            names: table_of(self.scope@),
            function_return: match self.function_return {
                Some(t) => Some(t@),
                None => None,
            },
        }
    }

    /// The chain of scopes from the file's scope down to this one.
    pub closed spec fn model(&self) -> ContextView
        decreases self,
    {
        match self.parent {
            Some(p) => ContextView { frames: p.model().frames.push(self.frame()) },
            None => ContextView { frames: seq![self.frame()] },
        }
    }

    /// A chain of scopes is never empty.
    pub proof fn lemma_never_empty(&self)
        ensures
            self@.frames.len() >= 1,
        decreases self,
    {
        match self.parent {
            Some(p) => {},
            None => {},
        }
    }

    /// The file's scope, with nothing declared.
    pub fn new() -> (r: Self)
        ensures
            r@ == ContextView::root(),
    {
        Context { scope: Vec::new(), function_return: None, parent: None }
    }

    /// A fresh scope inside this one.
    pub fn inner(&'a self) -> (r: Self)
        ensures
            r@ == self@.enter(),
    {
        Context { scope: Vec::new(), function_return: None, parent: Some(self) }
    }

    /// Declares a name in this scope. A name may hide one of an outer scope,
    /// but cannot be declared twice in the same scope.
    pub fn add_name(&mut self, n: String, t: Type) -> (r: Result<(), CompilerError>)
        ensures
            old(self)@.declares_here(n@) ==> r == Err::<(), CompilerError>(
                CompilerError::SemanticError(SemanticError::NameRedefined),
            ) && final(self)@ == old(self)@,
            !old(self)@.declares_here(n@) ==> r == Ok::<(), CompilerError>(()) && final(self)@
                == old(self)@.declare(n@, t@),
    {
        proof {
            self.lemma_shape();
        }
        if find(&self.scope, &n).is_some() {
            return Err(CompilerError::SemanticError(SemanticError::NameRedefined));
        }
        proof {
            lemma_table_push(self.scope@, n, t);
        }
        self.scope.push((n, t));
        proof {
            self.lemma_shape();
            assert(self@.frames =~= old(self)@.declare(n@, t@).frames);
        }
        Ok(())
    }

    /// The type under which a name is visible from this scope.
    pub fn get_type(&self, n: &str) -> (r: Option<&Type>)
        ensures
            match r {
                Some(t) => self@.lookup(n@) == Some(t@),
                None => self@.lookup(n@) is None,
            },
    {
        let name = n.to_owned();
        self.resolve(&name)
    }

    fn resolve(&self, name: &String) -> (r: Option<&Type>)
        ensures
            match r {
                Some(t) => self@.lookup(name@) == Some(t@),
                None => self@.lookup(name@) is None,
            },
        decreases self,
    {
        proof {
            self.lemma_shape();
        }
        match find(&self.scope, name) {
            Some(t) => Some(t),
            None => match self.parent {
                Some(p) => {
                    proof {
                        p.lemma_never_empty();
                    }
                    p.resolve(name)
                },
                None => {
                    assert(self@.outer().lookup(name@) is None);
                    None
                },
            },
        }
    }

    /// The return type of the function whose body this scope lies in, if it
    /// lies in one.
    pub fn return_type(&self) -> (r: Option<&Type>)
        ensures
            match r {
                Some(t) => self@.return_type() == Some(t@),
                None => self@.return_type() is None,
            },
        decreases self,
    {
        proof {
            self.lemma_shape();
        }
        match &self.function_return {
            Some(t) => Some(t),
            None => match self.parent {
                Some(p) => {
                    proof {
                        p.lemma_never_empty();
                    }
                    p.return_type()
                },
                None => {
                    assert(self@.outer().return_type() is None);
                    None
                },
            },
        }
    }

    /// Marks this scope as the body of a function that returns `t`. Inside a
    /// function no further function can be defined.
    pub fn set_return_type(&mut self, t: Type) -> (r: Result<(), CompilerError>)
        ensures
            old(self)@.return_type() is Some ==> r == Err::<(), CompilerError>(
                CompilerError::SemanticError(SemanticError::NestedFunction),
            ) && final(self)@ == old(self)@,
            old(self)@.return_type() is None ==> r == Ok::<(), CompilerError>(()) && final(self)@
                == old(self)@.mark_function(t@),
    {
        if self.return_type().is_some() {
            return Err(CompilerError::SemanticError(SemanticError::NestedFunction));
        }
        proof {
            self.lemma_shape();
        }
        self.function_return = Some(t);
        proof {
            self.lemma_shape();
            assert(self@.frames =~= old(self)@.mark_function(t@).frames);
        }
        Ok(())
    }

    /// The chain ends in this scope, and what precedes it is the parent's chain.
    proof fn lemma_shape(&self)
        ensures
            self@.frames.len() >= 1,
            self@.current() == self.frame(),
            match self.parent {
                Some(p) => self@.outer() == p@,
                None => self@.frames.len() == 1,
            },
    {
        match self.parent {
            Some(p) => {
                assert(self@.frames.drop_last() =~= p@.frames);
            },
            None => {},
        }
    }
}

} // verus!
