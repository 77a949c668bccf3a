//! Modules: the host-compiled artefact paired with its parsed signatures.

use vstd::prelude::*;

use crate::value::ExternType;

verus! {

/// The import and export signature tables an external parser produced for a
/// byte image; the adapter performs no validation of its own on them.
#[derive(Debug)]
pub struct ParsedModule {
    /// The declared imports: full name (module and item, joined by the
    /// parser) to declared type, in declaration order.
    pub imports: Vec<(String, ExternType)>,
    /// The declared exports: name to declared type, in declaration order.
    pub exports: Vec<(String, ExternType)>,
}

/// The first entry under `name` in an association list, if any.
pub open spec fn assoc_first<T>(entries: Seq<(String, T)>, name: Seq<char>) -> Option<T>
    decreases entries.len(),
{
    if entries.len() == 0 {
        None
    } else if entries.first().0@ == name {
        Some(entries.first().1)
    } else {
        assoc_first(entries.drop_first(), name)
    }
}

impl ParsedModule {
    /// The declared type of the export `name`, if the parser reported one.
    pub fn export_ty(&self, name: &String) -> (r: Option<&ExternType>)
        ensures
            match r {
                Some(t) => assoc_first(self.exports@, name@) == Some(*t),
                None => assoc_first(self.exports@, name@) is None,
            },
    {
        proof {
            assert(self.exports@.skip(0) =~= self.exports@);
        }
        let mut i: usize = 0;
        while i < self.exports.len()
            invariant
                i <= self.exports@.len(),
                assoc_first(self.exports@, name@) == assoc_first(
                    self.exports@.skip(i as int),
                    name@,
                ),
            decreases self.exports@.len() - i,
        {
            proof {
                assert(self.exports@.skip(i as int).first() == self.exports@[i as int]);
                assert(self.exports@.skip(i as int).drop_first() =~= self.exports@.skip(i + 1));
            }
            if self.exports[i].0 == *name {
                return Some(&self.exports[i].1);
            }
            i += 1;
        }
        proof {
            assert(self.exports@.skip(self.exports@.len() as int) =~= Seq::<(
                String,
                ExternType,
            )>::empty());
        }
        None
    }
}

/// A module: the handle of the host-compiled artefact, plus the signature
/// tables the external parser reported for the same bytes.
#[derive(Debug)]
pub struct Module {
    /// The opaque handle of the host-compiled module.
    pub handle: u64,
    /// The parsed signature tables.
    pub parsed: ParsedModule,
}

impl Module {
    /// Pairs a host-compiled module's handle with its parsed signatures.
    ///
    /// Compilation and parsing are both outside work: the bytes go to the
    /// host's compiler and to the external parser, and this pairs what came
    /// back; the two are assumed consistent.
    pub fn new(handle: u64, parsed: ParsedModule) -> (r: Module)
        ensures
            r.handle == handle,
            r.parsed == parsed,
    {
        Module { handle, parsed }
    }

    /// The declared imports, as the parser reported them.
    pub fn imports(&self) -> (r: &Vec<(String, ExternType)>)
        ensures
            *r == self.parsed.imports,
    {
        &self.parsed.imports
    }

    /// The declared exports, as the parser reported them.
    pub fn exports(&self) -> (r: &Vec<(String, ExternType)>)
        ensures
            *r == self.parsed.exports,
    {
        &self.parsed.exports
    }
}

} // verus!
