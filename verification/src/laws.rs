use vstd::prelude::*;

use vstd::utf8::valid_utf8;

use crate::option_response::{json_parses, json_string_member, option_string, string_option_text};
use crate::library_path::{path_is_absolute, paths_equal, LibraryPath};
use crate::process::{load_outcome, LoadOutcome, ProcessModel};

verus! {

/// A relative library path is refused, whatever the state of the process.
pub proof fn law_relative_path_refused<L, S>(m: ProcessModel<L, S>, requested: Seq<u8>)
    requires
        !path_is_absolute(requested),
    ensures
        load_outcome(m, requested) == LoadOutcome::<S>::RelativePath,
{
}

/// At most one owner exists at a time: while an owner is active, a load of any absolute
/// path is refused with `OwnerAlreadyActive`.
pub proof fn law_single_owner<L, S>(m: ProcessModel<L, S>, requested: Seq<u8>)
    requires
        m.owner_active,
        path_is_absolute(requested),
    ensures
        load_outcome(m, requested) == LoadOutcome::<S>::OwnerActive,
{
}

/// A successful load makes its owner the active one, so every further load of an
/// absolute path is refused until that owner is released.
pub proof fn law_load_excludes_second_owner<L, S>(
    m: ProcessModel<L, S>,
    requested: LibraryPath,
    library: L,
    opened: S,
    next: Seq<u8>,
)
    requires
        load_outcome(m, requested@) is Open || load_outcome(m, requested@) is Reuse,
        path_is_absolute(next),
    ensures
        m.after_successful_load(requested, library, opened).owner_active,
        load_outcome(m.after_successful_load(requested, library, opened), next)
            == LoadOutcome::<S>::OwnerActive,
{
}

/// The first successful load binds the process to exactly the requested path, the handle
/// of the library opened there and the symbols found in it.
pub proof fn law_first_load_binds_requested_path<L, S>(
    m: ProcessModel<L, S>,
    requested: LibraryPath,
    library: L,
    opened: S,
)
    requires
        m.bound is None,
        !m.owner_active,
        path_is_absolute(requested@),
    ensures
        load_outcome(m, requested@) == LoadOutcome::<S>::Open,
        m.after_successful_load(requested, library, opened).bound == Some(
            (requested, library, opened),
        ),
{
}

/// The binding is permanent and the library stays loaded: once the process is bound,
/// neither a successful load nor the activation or release of an owner changes the bound
/// path, drops the library handle or changes the symbols.
pub proof fn law_binding_is_permanent<L, S>(
    m: ProcessModel<L, S>,
    requested: LibraryPath,
    library: L,
    opened: S,
)
    requires
        m.bound is Some,
    ensures
        m.after_successful_load(requested, library, opened).bound == m.bound,
        m.after_release().bound == m.bound,
        m.after_activate().bound == m.bound,
{
}

/// Once bound, the process refuses any other path with `LibraryPathMismatch`, also after
/// the owner is released.
pub proof fn law_other_path_refused_once_bound<L, S>(
    m: ProcessModel<L, S>,
    bound_path: LibraryPath,
    library: L,
    symbols: S,
    requested: Seq<u8>,
)
    requires
        m.bound == Some((bound_path, library, symbols)),
        path_is_absolute(requested),
        !paths_equal(bound_path@, requested),
    ensures
        load_outcome(m.after_release(), requested) == LoadOutcome::<S>::PathMismatch,
{
}

/// Releasing an owner gives access back: a later load of a path equal to the bound one
/// reuses the resident library and its symbols.
pub proof fn law_release_then_reload_reuses<L, S>(
    m: ProcessModel<L, S>,
    bound_path: LibraryPath,
    library: L,
    symbols: S,
    requested: Seq<u8>,
)
    requires
        m.bound == Some((bound_path, library, symbols)),
        path_is_absolute(requested),
        paths_equal(bound_path@, requested),
    ensures
        !m.after_release().owner_active,
        load_outcome(m.after_release(), requested) == LoadOutcome::Reuse(symbols),
{
}

/// In any state the loader reaches, the bound path itself can be loaded again once its
/// owner is released: the resident library is reused with its symbols.
pub proof fn law_bound_path_reloads_after_release<L, S>(
    m: ProcessModel<L, S>,
    bound_path: LibraryPath,
    library: L,
    symbols: S,
)
    requires
        m.well_formed(),
        m.bound == Some((bound_path, library, symbols)),
    ensures
        load_outcome(m.after_release(), bound_path@) == LoadOutcome::Reuse(symbols),
{
}

/// After any successful load of `requested`, the process is bound to a path equal to it,
/// and a later load of an absolute path not equal to it is never accepted: it is refused
/// with `OwnerAlreadyActive` while the owner lives, and with `LibraryPathMismatch` after
/// the owner is released.
pub proof fn law_successful_load_fixes_the_path<L, S>(
    m: ProcessModel<L, S>,
    requested: LibraryPath,
    library: L,
    opened: S,
    next: Seq<u8>,
)
    requires
        load_outcome(m, requested@) is Open || load_outcome(m, requested@) is Reuse,
        path_is_absolute(next),
        !paths_equal(requested@, next),
    ensures
        m.after_successful_load(requested, library, opened).bound matches Some((bound, _, _))
            && paths_equal(bound@, requested@),
        load_outcome(m.after_successful_load(requested, library, opened), next)
            == LoadOutcome::<S>::OwnerActive,
        load_outcome(m.after_successful_load(requested, library, opened).after_release(), next)
            == LoadOutcome::<S>::PathMismatch,
{
}

/// A `getOption` answer of type `optionValueString` gives back its whole `value` text,
/// whatever its length, and nothing when it has no string value; an answer of any other
/// type gives nothing.
pub proof fn law_option_value_is_returned_whole(type_tag: Option<Seq<char>>, value: Option<Seq<char>>)
    ensures
        type_tag == Some("optionValueString"@) ==> option_string(type_tag, value) == value,
        type_tag != Some("optionValueString"@) ==> option_string(type_tag, value) is None,
{
}

/// The text read from a response is exactly its string member `value` when the response
/// is UTF-8, parses as JSON and has `@type` = `optionValueString`, with no bound on the
/// length of the text; a response that is not UTF-8 or not JSON carries no text.
pub proof fn law_response_text_is_the_whole_value(response: Seq<u8>, text: Seq<char>)
    ensures
        valid_utf8(response) && json_parses(response) && json_string_member(response, "@type"@)
            == Some("optionValueString"@) && json_string_member(response, "value"@) == Some(
            text,
        ) ==> string_option_text(response) == Some(text),
        !valid_utf8(response) || !json_parses(response) ==> string_option_text(response) is None,
{
}

} // verus!
