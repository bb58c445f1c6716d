//! Delegation synthesis for wrapper types.
//!
//! Given the declaration of a trait (a list of method signatures, possibly
//! generic) and a target aggregate type — a struct with a single field, or an
//! enum whose every variant carries exactly one payload field — this library
//! produces, for each trait method not already implemented by the user, a
//! forwarding method body that calls the trait method on the payload, with
//! the correct receiver ownership, the generic parameters of the trait
//! specialized to the concrete instantiation, and optional user-supplied
//! override templates.
//!
//! The library works on its own model of type expressions, signatures and
//! declarations; turning host-language surface syntax into that model, and
//! rendering the synthesized methods back into source text, is left to the
//! caller.

pub mod model;
pub mod generic_param_replacer;
pub mod ident_replacer;
pub mod fn_call_replacer;
pub mod derive_delegate_args;
pub mod gen;
pub mod storage;
pub mod util;

use vstd::prelude::*;

use crate::derive_delegate_args::DeriveDelegateArgs;
use crate::derive_delegate_args::SpecDeriveDelegateArgs;
use crate::gen::SpecTraitData;
use crate::gen::TraitData;
use crate::gen::spec_gen_impl;
use crate::gen::spec_validate_sigs;
use crate::model::Error;
use crate::model::MethodImpl;
use crate::model::SpecError;
use crate::model::SpecMethodImpl;
use crate::model::SpecStructEnum;
use crate::model::SpecTraitPath;
use crate::model::StructEnum;
use crate::model::TraitPath;
use crate::model::view_mimpl_seq;
use crate::model::view_string_seq;
use crate::storage::SpecStorageEntry;
use crate::storage::Storage;
use crate::storage::spec_key_of;
use crate::storage::spec_storage_lookup;

verus! {

/// What registering a trait declaration does to a store: the declaration
/// is validated (every method must have a supported receiver), and then
/// inserted under its normalized name only if that name is absent.
pub open spec fn spec_register(
    entries: Seq<SpecStorageEntry>,
    path: SpecTraitPath,
    td: SpecTraitData,
) -> Result<Seq<SpecStorageEntry>, SpecError> {
    match spec_validate_sigs(td.sigs) {
        Result::Err(e) => Result::Err(e),
        Result::Ok(u) => {
            if spec_storage_lookup(entries, spec_key_of(path)) is Some {
                Result::Err(SpecError::NameConflict { name: path.segments.last() })
            } else {
                Result::Ok(
                    entries.push(SpecStorageEntry { key: spec_key_of(path), data: td }),
                )
            }
        },
    }
}

/// Registers a trait declaration: validates every method signature, then
/// stores the declaration under the normalized name of `path`, failing
/// with `NameConflict` when that name was already registered.
pub fn register(storage: &mut Storage, path: &TraitPath, trait_data: &TraitData) -> (r: Result<
    (),
    Error,
>)
    requires
        old(storage)@.len() < usize::MAX,
        path@.segments.len() > 0,
    ensures
        r is Ok <==> spec_register(old(storage)@, path@, trait_data@) is Ok,
        r is Ok ==> final(storage)@ == spec_register(old(storage)@, path@, trait_data@)->Ok_0,
        r matches Err(e) ==> final(storage)@ == old(storage)@ && e@ == spec_register(
            old(storage)@,
            path@,
            trait_data@,
        )->Err_0,
{
    match trait_data.validate() {
        Result::Err(e) => {
            return Result::Err(e);
        },
        Result::Ok(u) => {},
    }
    storage.store(path, trait_data)
}

/// What one whole generation request returns: the trait declaration is
/// looked up under the request's (normalized) trait name, the request's
/// generic arguments specialize it, and the not-yet-implemented methods
/// are synthesized against the target.
pub open spec fn spec_fill_delegate(
    entries: Seq<SpecStorageEntry>,
    args: SpecDeriveDelegateArgs,
    path: SpecTraitPath,
    target: SpecStructEnum,
    impls: Seq<Seq<char>>,
) -> Result<Seq<SpecMethodImpl>, SpecError> {
    match spec_storage_lookup(entries, spec_key_of(path)) {
        Option::None => Result::Err(SpecError::UnresolvedInterface { name: path.segments.last() }),
        Option::Some(td) => spec_gen_impl(
            args,
            SpecTraitData { trait_path: path, generics: td.generics, sigs: td.sigs },
            target,
            impls,
        ),
    }
}

/// Synthesizes the delegated methods of one generation request: the trait
/// named by `trait_path` (which also carries the instantiation's generic
/// arguments) is retrieved from the store and each of its methods receives
/// a forwarding body against `structenum` — skipping methods named in
/// `already_implemented` and, unless the request's policy extends
/// delegation to them, methods with a default body.
pub fn fill_delegate(
    storage: &mut Storage,
    args: &DeriveDelegateArgs,
    trait_path: &TraitPath,
    structenum: &StructEnum,
    already_implemented: &Vec<String>,
) -> (r: Result<Vec<MethodImpl>, Error>)
    requires
        trait_path@.segments.len() > 0,
    ensures
        final(storage)@ == old(storage)@,
        r is Ok <==> spec_fill_delegate(
            old(storage)@,
            args@,
            trait_path@,
            structenum@,
            view_string_seq(already_implemented@),
        ) is Ok,
        r matches Ok(v) ==> view_mimpl_seq(v@) == spec_fill_delegate(
            old(storage)@,
            args@,
            trait_path@,
            structenum@,
            view_string_seq(already_implemented@),
        )->Ok_0,
        r matches Err(e) ==> e@ == spec_fill_delegate(
            old(storage)@,
            args@,
            trait_path@,
            structenum@,
            view_string_seq(already_implemented@),
        )->Err_0,
{
    let stored = match storage.get(trait_path) {
        Option::None => {
            let name = trait_path.segments[trait_path.segments.len() - 1].clone();
            return Result::Err(Error::UnresolvedInterface { name });
        },
        Option::Some(td) => td,
    };
    let trait_data = TraitData {
        trait_path: trait_path.clone(),
        generics: stored.generics,
        sigs: stored.sigs,
    };
    crate::gen::gen_impl(args, &trait_data, structenum, already_implemented)
}

} // verus!
