//! The generator for x86-64.

pub mod declaration;
pub mod discipline;
pub mod expression;
pub mod helpers;
pub mod instance;
pub mod instructions;
pub mod registers;
pub mod scratch;
pub mod sizes;
pub mod statement;

use vstd::prelude::*;
use vstd::string::*;
use crate::ast::declaration::Declaration;
use crate::ast::translation_unit::TranslationUnit;
use crate::codegen::error::CodegenError;
use crate::codegen::AssemblerOptions;
use crate::codegen::x86_64::helpers::written;
use crate::codegen::x86_64::instance::GeneratorInstance;
use crate::codegen::x86_64::instance::texts;
use crate::codegen::x86_64::instance::GeneratorView;
use crate::codegen::x86_64::statement::Emitted;

verus! {

/// The code generator for x86-64. Each translation unit is generated in a
/// run of its own, so that one generator serves any number of units.
#[derive(Debug, Clone, Copy)]
pub struct X86_64Generator;

impl GeneratorView {
    /// Lowers the declarations from position `from` on in their order, up to
    /// the first that fails.
    pub open spec fn lower_decls(self, decls: Seq<Declaration>, from: int) -> Emitted
        decreases decls.len() - from,
    {
        if from < 0 || from >= decls.len() {
            (self, Ok(()))
        } else {
            let (m, r) = self.lower_decl(&decls[from]);
            if r is Err {
                (m, r)
            } else {
                m.lower_decls(decls, from + 1)
            }
        }
    }
}

/// The assembly unit for a translation unit: its declarations lowered in
/// their order in a fresh run, and the run's sections written out; or the
/// error of the first declaration that could not be lowered.
pub open spec fn generated(trans_unit: &TranslationUnit) -> Result<Seq<char>, CodegenError> {
    let (m, r) = GeneratorView::fresh().lower_decls(trans_unit.declarations@, 0);
    match r {
        Err(e) => Err(e),
        Ok(_) => Ok(m.render()),
    }
}

/// The path of the executable where the options name none.
pub open spec fn linked_output(options: &AssemblerOptions) -> Seq<char> {
    match options.output {
        Some(path) => path@,
        None => "a.out"@,
    }
}

impl X86_64Generator {
    /// The generator. It keeps nothing between units.
    pub fn new() -> (r: X86_64Generator) {
        X86_64Generator {  }
    }

    /// The arguments with which the assembler turns the unit at `source`
    /// into the object file at `object`.
    pub fn assembler_arguments(&self, source: &str, object: &str) -> (r: Vec<String>)
        ensures
            texts(r@) == seq!["-f"@, "macho64"@, "-o"@, object@, source@],
    {
        let mut arguments: Vec<String> = Vec::new();
        arguments.push(String::from_str("-f"));
        arguments.push(String::from_str("macho64"));
        arguments.push(String::from_str("-o"));
        arguments.push(String::from_str(object));
        arguments.push(String::from_str(source));
        proof {
            assert(texts(arguments@) =~= seq!["-f"@, "macho64"@, "-o"@, object@, source@]);
        }
        arguments
    }

    /// The arguments with which the linker makes an executable of the
    /// object files: at the path that the options name, or at `a.out`.
    pub fn linker_arguments(&self, options: &AssemblerOptions, objects: &Vec<String>) -> (r: Vec<
        String,
    >)
        ensures
            texts(r@) == seq!["-target"@, "x86_64-apple-darwin"@, "-o"@, linked_output(options)]
                + texts(objects@),
    {
        let mut arguments: Vec<String> = Vec::new();
        arguments.push(String::from_str("-target"));
        arguments.push(String::from_str("x86_64-apple-darwin"));
        arguments.push(String::from_str("-o"));
        arguments.push(
            match options.output {
                Some(path) => String::from_str(path),
                None => String::from_str("a.out"),
            },
        );
        let ghost head = texts(arguments@);
        proof {
            assert(head =~= seq![
                "-target"@,
                "x86_64-apple-darwin"@,
                "-o"@,
                linked_output(options),
            ]);
        }
        let mut i: usize = 0;
        while i < objects.len()
            invariant
                i <= objects.len(),
                head.len() == 4,
                arguments@.len() == 4 + i,
                texts(arguments@) =~= head + texts(objects@).take(i as int),
            decreases objects.len() - i,
        {
            let ghost before = texts(arguments@);
            let object = objects[i].clone();
            arguments.push(object);
            proof {
                assert(texts(arguments@) =~= before.push(object@));
                assert(texts(objects@).take(i + 1) =~= texts(objects@).take(i as int).push(
                    objects@[i as int]@,
                ));
            }
            i += 1;
        }
        proof {
            assert(texts(objects@).take(i as int) =~= texts(objects@));
        }
        arguments
    }

    /// Where an object file is left when nothing is linked: at the path that
    /// the options name if there is one and the object file is the only one,
    /// else under its own name in the working directory.
    pub fn object_destination(
        &self,
        options: &AssemblerOptions,
        count: usize,
        in_working_directory: String,
    ) -> (r: String)
        ensures
            r@ == (match options.output {
                Some(path) => if count == 1 {
                    path@
                } else {
                    in_working_directory@
                },
                None => in_working_directory@,
            }),
    {
        match options.output {
            Some(path) => if count == 1 {
                String::from_str(path)
            } else {
                in_working_directory
            },
            None => in_working_directory,
        }
    }

    /// Generates the assembly unit for a translation unit.
    pub fn generate(&self, trans_unit: &TranslationUnit) -> (r: Result<String, CodegenError>)
        ensures
            written(r) == generated(trans_unit),
    {
        let mut instance = GeneratorInstance::new();
        let mut i: usize = 0;
        while i < trans_unit.declarations.len()
            invariant
                instance.wf(),
                i <= trans_unit.declarations.len(),
                GeneratorView::fresh().lower_decls(trans_unit.declarations@, 0)
                    == instance@.lower_decls(trans_unit.declarations@, i as int),
            decreases trans_unit.declarations.len() - i,
        {
            instance.gen_declaration(&trans_unit.declarations[i])?;
            i += 1;
        }
        Ok(instance.get_instructions())
    }
}

} // verus!
