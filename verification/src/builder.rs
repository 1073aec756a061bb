//! Assembling a `Module` from the decoded sections of a binary module:
//! the type table, the function-signature table, the code bodies and the
//! export table. A module without a function export literally named
//! `entry` cannot be built at all, so compilation fails before any
//! output exists.

use vstd::prelude::*;
use crate::ast::{Body, CompileError, FuncSig, FunctionDef, Module, ValKind};

verus! {

/// One record of the decoded export table.
pub struct Export {
    pub name: String,
    pub is_func: bool,
    pub index: usize,
}

/// Whether an export designates the program entry: a function export
/// literally named `entry`.
pub open spec fn is_entry_export(e: Export) -> bool {
    e.is_func && e.name@ == "entry"@
}

/// The index named by the first entry export among `exports[i..]`.
pub open spec fn entry_of(exports: Seq<Export>, i: int) -> Option<usize>
    decreases exports.len() - i,
{
    if i < 0 || i >= exports.len() {
        None
    } else if is_entry_export(exports[i]) {
        Some(exports[i].index)
    } else {
        entry_of(exports, i + 1)
    }
}

/// Position of the first function-section entry naming a type the type
/// table lacks, if any.
pub open spec fn bad_type_index(indices: Seq<usize>, ntypes: nat, i: int) -> Option<usize>
    decreases indices.len() - i,
{
    if i < 0 || i >= indices.len() {
        None
    } else if indices[i] >= ntypes {
        Some(i as usize)
    } else {
        bad_type_index(indices, ntypes, i + 1)
    }
}

/// Two signatures declaring the same parameter and result kinds.
pub open spec fn sig_like(a: FuncSig, b: FuncSig) -> bool {
    a.params@ == b.params@ && a.results@ == b.results@
}

#[verifier::loop_isolation(false)]
fn copy_kinds(src: &Vec<ValKind>) -> (r: Vec<ValKind>)
    ensures
        r@ == src@,
{
    let mut r: Vec<ValKind> = Vec::new();
    let mut i: usize = 0;
    while i < src.len()
        invariant
            i <= src@.len(),
            r@ == src@.subrange(0, i as int),
        decreases src@.len() - i,
    {
        r.push(src[i]);
        i = i + 1;
        proof {
            assert(r@ =~= src@.subrange(0, i as int));
        }
    }
    proof {
        assert(r@ =~= src@);
    }
    r
}

fn copy_sig(src: &FuncSig) -> (r: FuncSig)
    ensures
        sig_like(r, *src),
{
    FuncSig { params: copy_kinds(&src.params), results: copy_kinds(&src.results) }
}

/// Collects the decoded sections and produces the `Module` the compiler
/// consumes.
pub struct ModuleBuilder {
    types: Vec<FuncSig>,
    func_decls: Vec<FuncSig>,
    functions: Vec<FunctionDef>,
    entry: Option<usize>,
}

impl ModuleBuilder {
    pub closed spec fn spec_types(self) -> Seq<FuncSig> {
        self.types@
    }

    pub closed spec fn spec_decls(self) -> Seq<FuncSig> {
        self.func_decls@
    }

    pub closed spec fn spec_functions(self) -> Seq<FunctionDef> {
        self.functions@
    }

    pub closed spec fn spec_entry(self) -> Option<usize> {
        self.entry
    }

    pub fn new() -> (r: ModuleBuilder)
        ensures
            r.spec_types() == Seq::<FuncSig>::empty(),
            r.spec_decls() == Seq::<FuncSig>::empty(),
            r.spec_functions() == Seq::<FunctionDef>::empty(),
            r.spec_entry() is None,
    {
        ModuleBuilder { types: Vec::new(), func_decls: Vec::new(), functions: Vec::new(), entry: None }
    }

    /// Record the type table; replaces any earlier one.
    pub fn add_types(&mut self, types: Vec<FuncSig>)
        ensures
            final(self).spec_types() == types@,
            final(self).spec_decls() == old(self).spec_decls(),
            final(self).spec_functions() == old(self).spec_functions(),
            final(self).spec_entry() == old(self).spec_entry(),
    {
        self.types = types;
    }

    /// Record the function-signature table: each entry names a type of
    /// the type table by index. An index the table lacks is an error,
    /// and the builder is left unchanged.
    #[verifier::loop_isolation(false)]
    pub fn add_funcs(&mut self, type_indices: &Vec<usize>) -> (res: Result<(), CompileError>)
        ensures
            res is Ok <==> bad_type_index(type_indices@, old(self).spec_types().len(), 0) is None,
            res matches Err(e) ==> bad_type_index(
                type_indices@,
                old(self).spec_types().len(),
                0,
            ) matches Some(j) && e == (CompileError::TypeIndexOutOfRange { index: j }),
            res is Err ==> *final(self) == *old(self),
            res is Ok ==> final(self).spec_decls().len() == type_indices@.len() && (forall|j: int|
                0 <= j < type_indices@.len() ==> sig_like(
                    final(self).spec_decls()[j],
                    old(self).spec_types()[type_indices@[j] as int],
                )),
            final(self).spec_types() == old(self).spec_types(),
            final(self).spec_functions() == old(self).spec_functions(),
            final(self).spec_entry() == old(self).spec_entry(),
    {
        let mut decls: Vec<FuncSig> = Vec::new();
        let mut j: usize = 0;
        let n = type_indices.len();
        while j < n
            invariant
                j <= n,
                n == type_indices@.len(),
                decls@.len() == j,
                forall|k: int|
                    0 <= k < j ==> sig_like(
                        decls@[k],
                        self.spec_types()[type_indices@[k] as int],
                    ),
                forall|k: int| 0 <= k < j ==> type_indices@[k] < self.spec_types().len(),
                bad_type_index(type_indices@, self.spec_types().len(), 0) == bad_type_index(
                    type_indices@,
                    self.spec_types().len(),
                    j as int,
                ),
                *self == *old(self),
            decreases n - j,
        {
            let idx = type_indices[j];
            if idx >= self.types.len() {
                return Err(CompileError::TypeIndexOutOfRange { index: j });
            }
            decls.push(copy_sig(&self.types[idx]));
            j = j + 1;
        }
        self.func_decls = decls;
        Ok(())
    }

    /// Record one code-section body: it pairs with the next declared
    /// function signature, in order. A body beyond the declared count is
    /// an error, and the builder is left unchanged.
    pub fn add_code(&mut self, body: Body) -> (res: Result<(), CompileError>)
        ensures
            res is Ok <==> old(self).spec_functions().len() < old(self).spec_decls().len(),
            res matches Err(e) ==> e == CompileError::CodeWithoutDeclaration,
            res is Err ==> *final(self) == *old(self),
            res is Ok ==> final(self).spec_functions().len() == old(self).spec_functions().len()
                + 1 && final(self).spec_functions().last().body == body && sig_like(
                final(self).spec_functions().last().func_type,
                old(self).spec_decls()[old(self).spec_functions().len() as int],
            ) && final(self).spec_functions().subrange(
                0,
                old(self).spec_functions().len() as int,
            ) == old(self).spec_functions(),
            final(self).spec_types() == old(self).spec_types(),
            final(self).spec_decls() == old(self).spec_decls(),
            final(self).spec_entry() == old(self).spec_entry(),
    {
        let n = self.functions.len();
        if n >= self.func_decls.len() {
            return Err(CompileError::CodeWithoutDeclaration);
        }
        let sig = copy_sig(&self.func_decls[n]);
        self.functions.push(FunctionDef { func_type: sig, body });
        proof {
            assert(self.spec_functions().subrange(0, old(self).spec_functions().len() as int)
                =~= old(self).spec_functions());
        }
        Ok(())
    }

    /// Record the export table: the entry index becomes the index of the
    /// first function export named `entry`, or none.
    #[verifier::loop_isolation(false)]
    pub fn add_exports(&mut self, exports: &Vec<Export>)
        ensures
            final(self).spec_entry() == entry_of(exports@, 0),
            final(self).spec_types() == old(self).spec_types(),
            final(self).spec_decls() == old(self).spec_decls(),
            final(self).spec_functions() == old(self).spec_functions(),
    {
        let needle: String = "entry".to_owned();
        let mut found: Option<usize> = None;
        let mut i: usize = 0;
        while i < exports.len()
            invariant
                i <= exports@.len(),
                found is None,
                entry_of(exports@, 0) == entry_of(exports@, i as int),
                *self == *old(self),
            decreases exports@.len() - i,
        {
            let e = &exports[i];
            if e.is_func && e.name == needle {
                found = Some(e.index);
                break ;
            }
            i = i + 1;
        }
        self.entry = found;
    }

    /// Produce the module. Without an entry export this fails with
    /// `MissingEntry`: nothing downstream ever runs, so no output is
    /// produced for such a module.
    pub fn build(self) -> (res: Result<Module, CompileError>)
        ensures
            res is Ok <==> self.spec_entry() is Some,
            res matches Err(e) ==> e == CompileError::MissingEntry,
            res matches Ok(m) ==> Some(m.entry) == self.spec_entry() && m.functions@
                == self.spec_functions(),
    {
        match self.entry {
            Some(entry) => Ok(Module { entry, functions: self.functions }),
            None => Err(CompileError::MissingEntry),
        }
    }
}

} // verus!
