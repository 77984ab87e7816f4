//! Inbound conversion: from what the engine answered to the host's types.
//!
//! Each operation has one rule. The rules take the engine's answer as an
//! argument, already read as far as the runtime can read it, so they hold for
//! every answer the engine may give.

use crate::fault::{BindingFault, Capability, RenderError};
use crate::foreign::{list_len, list_text_at};
use vstd::prelude::*;

verus! {

/// The rule for an answer that must have a shape. `raw` is the engine's
/// answer: `Ok(Some(v))` where it answered with a value of the shape,
/// `Ok(None)` where it answered with anything else, `Err(p)` where it turned
/// the request down and signalled `p`.
pub open spec fn shaped<T, P>(raw: Result<Option<T>, P>, fault: BindingFault) -> Result<
    T,
    RenderError<P>,
> {
    match raw {
        Ok(Some(value)) => Ok(value),
        Ok(None) => Err(RenderError::Fatal(fault)),
        Err(payload) => Err(RenderError::Rejected(payload)),
    }
}

/// The rule for an answer that is handed on as it is.
pub open spec fn unshaped<V, P>(raw: Result<V, P>) -> Result<V, RenderError<P>> {
    match raw {
        Ok(value) => Ok(value),
        Err(payload) => Err(RenderError::Rejected(payload)),
    }
}

/// The result of a text render. A string is handed on unchanged; an answer
/// that is no string is a fault; a rejection stays a rejection.
pub fn text_result<P>(raw: Result<Option<String>, P>) -> (result: Result<String, RenderError<P>>)
    ensures
        result == shaped(raw, BindingFault::RenderedNotString),
{
    match raw {
        Ok(Some(text)) => Ok(text),
        Ok(None) => Err(RenderError::Fatal(BindingFault::RenderedNotString)),
        Err(payload) => Err(RenderError::Rejected(payload)),
    }
}

/// The result of an element render. An element is handed on unchanged; an
/// answer that is no element is a fault; a rejection stays a rejection.
pub fn element_result<E, P>(raw: Result<Option<E>, P>) -> (result: Result<E, RenderError<P>>)
    ensures
        result == shaped(raw, BindingFault::RenderedNotElement),
{
    match raw {
        Ok(Some(element)) => Ok(element),
        Ok(None) => Err(RenderError::Fatal(BindingFault::RenderedNotElement)),
        Err(payload) => Err(RenderError::Rejected(payload)),
    }
}

/// The result of a structured render. Whatever the engine answered is handed
/// on: the caller named the format and knows what to expect.
pub fn structured_result<V, P>(raw: Result<V, P>) -> (result: Result<V, RenderError<P>>)
    ensures
        result == unshaped(raw),
{
    match raw {
        Ok(value) => Ok(value),
        Err(payload) => Err(RenderError::Rejected(payload)),
    }
}

/// A rendering call gives a recoverable error exactly when the engine turned
/// the request down, and the error then holds what the engine signalled. This
/// is so in each of the three operations, whatever fault the operation has
/// for a wrong shape. A rejection never comes out as a fault.
pub proof fn lemma_rejection_is_recoverable<T, P>(
    raw: Result<Option<T>, P>,
    plain: Result<T, P>,
    fault: BindingFault,
)
    ensures
        raw is Err <==> shaped(raw, fault) matches Err(RenderError::Rejected(_)),
        raw matches Err(payload) ==> shaped(raw, fault) == Err::<T, RenderError<P>>(
            RenderError::Rejected(payload),
        ),
        plain is Err <==> unshaped(plain) matches Err(RenderError::Rejected(_)),
        plain matches Err(payload) ==> unshaped(plain) == Err::<T, RenderError<P>>(
            RenderError::Rejected(payload),
        ),
        !(unshaped(plain) matches Err(RenderError::Fatal(_))),
{
}

/// A rendering call succeeds exactly when the engine answered with a value of
/// the expected shape, and the result is then that value, nothing added and
/// nothing taken away.
pub proof fn lemma_answer_is_handed_on<T, P>(raw: Result<Option<T>, P>, fault: BindingFault)
    ensures
        shaped(raw, fault) is Ok <==> raw matches Ok(Some(_)),
        raw matches Ok(Some(value)) ==> shaped(raw, fault) == Ok::<T, RenderError<P>>(value),
        shaped(raw, fault) matches Err(RenderError::Fatal(found)) ==> found == fault && raw
            == Ok::<Option<T>, P>(None),
{
}

/// The same call gives the same result twice exactly when the engine gave the
/// same answer twice: the conversion brings in nothing of its own and loses
/// nothing.
pub proof fn lemma_same_answer_same_result<T, P>(
    first: Result<Option<T>, P>,
    second: Result<Option<T>, P>,
    fault: BindingFault,
)
    ensures
        shaped(first, fault) == shaped(second, fault) <==> first == second,
{
}

/// The rule for the lookup of the engine's entry point. `read` is `None`
/// where the global scope is no window, `Some(Err(p))` where reading the entry
/// point threw `p`, and `Some(Ok(h))` where the read gave `h`.
pub open spec fn entry_rule<H, P>(read: Option<Result<H, P>>) -> Result<H, BindingFault> {
    match read {
        Some(Ok(handle)) => Ok(handle),
        _ => Err(BindingFault::NotInitialized),
    }
}

/// The result of the lookup of the engine's entry point: what was read, and a
/// fault where nothing could be.
pub fn entry_point<H, P>(read: Option<Result<H, P>>) -> (found: Result<H, BindingFault>)
    ensures
        found == entry_rule(read),
{
    match read {
        Some(Ok(handle)) => Ok(handle),
        _ => Err(BindingFault::NotInitialized),
    }
}

/// What the instance-producing call settled with, as an instance: the value
/// itself if it is an object, and a fault if it is not.
pub fn settled_instance<V>(object: bool, value: V) -> (instance: Result<V, BindingFault>)
    ensures
        instance == if object {
            Ok::<V, BindingFault>(value)
        } else {
            Err::<V, BindingFault>(BindingFault::NotInitialized)
        },
{
    if object {
        Ok(value)
    } else {
        Err(BindingFault::NotInitialized)
    }
}

/// The rule for reading a capability list. `read` is `Ok(Some(l))` where the
/// instance answered with the list `l`, `Ok(None)` where it answered with
/// anything else, and `Err(p)` where the read threw `p`.
pub open spec fn list_rule<L, P>(read: Result<Option<L>, P>, which: Capability) -> Result<
    L,
    BindingFault,
> {
    match read {
        Ok(Some(list)) => Ok(list),
        _ => Err(BindingFault::NotAList(which)),
    }
}

/// The capability list that was read, and a fault for `which` where none was.
pub fn list_result<L, P>(read: Result<Option<L>, P>, which: Capability) -> (list: Result<
    L,
    BindingFault,
>)
    ensures
        list == list_rule(read, which),
{
    match read {
        Ok(Some(list)) => Ok(list),
        _ => Err(BindingFault::NotAList(which)),
    }
}

/// The rule for the reported version. `read` is `Ok(Some(t))` where the
/// instance reported the string `t`, `Ok(None)` where it reported anything
/// else, and `Err(p)` where the read threw `p`.
pub open spec fn version_rule<P>(read: Result<Option<String>, P>) -> Result<String, BindingFault> {
    match read {
        Ok(Some(text)) => Ok(text),
        _ => Err(BindingFault::VersionNotString),
    }
}

/// The reported version: the string that was read, and a fault where none
/// was.
pub fn version_result<P>(read: Result<Option<String>, P>) -> (version: Result<
    String,
    BindingFault,
>)
    ensures
        version == version_rule(read),
{
    match read {
        Ok(Some(text)) => Ok(text),
        _ => Err(BindingFault::VersionNotString),
    }
}

/// Whether every entry of a list is a string.
pub open spec fn all_strings(entries: Seq<Option<Seq<char>>>) -> bool {
    forall|i: int| 0 <= i < entries.len() ==> (#[trigger] entries[i]) is Some
}

/// The texts of a list of strings, in the order of the list.
pub open spec fn strings_of(entries: Seq<Option<Seq<char>>>) -> Seq<Seq<char>> {
    Seq::new(entries.len(), |i: int| entries[i].unwrap())
}

/// The rule for a capability list: all of its names in order if every entry is
/// a string, and a fault for `which` if one is not.
pub open spec fn names_rule(entries: Seq<Option<Seq<char>>>, which: Capability) -> Result<
    Seq<Seq<char>>,
    BindingFault,
> {
    if all_strings(entries) {
        Ok(strings_of(entries))
    } else {
        Err(BindingFault::NameNotString(which))
    }
}

/// What [`names_rule`] says of an executable result.
pub open spec fn names_match(
    result: Result<Vec<String>, BindingFault>,
    entries: Seq<Option<Seq<char>>>,
    which: Capability,
) -> bool {
    match result {
        Ok(names) => names_rule(entries, which) == Ok::<Seq<Seq<char>>, BindingFault>(
            names.deep_view(),
        ),
        Err(fault) => names_rule(entries, which) == Err::<Seq<Seq<char>>, BindingFault>(fault),
    }
}

/// A list of strings comes out as it went in: as many names as entries, each
/// name the text of its entry, in the order of the list. So a list that is not
/// empty gives names that are not empty, and two lists give the same names
/// exactly when they hold the same strings in the same order.
pub proof fn lemma_names_keep_the_list(
    one: Seq<Option<Seq<char>>>,
    other: Seq<Option<Seq<char>>>,
    which: Capability,
)
    requires
        all_strings(one),
        all_strings(other),
    ensures
        names_rule(one, which) is Ok,
        names_rule(one, which)->Ok_0.len() == one.len(),
        forall|i: int|
            0 <= i < one.len() ==> one[i] == Some(#[trigger] names_rule(one, which)->Ok_0[i]),
        names_rule(one, which) == names_rule(other, which) <==> one == other,
{
    if names_rule(one, which) == names_rule(other, which) {
        assert(strings_of(one) == strings_of(other));
        assert(one.len() == strings_of(one).len());
        assert(other.len() == strings_of(other).len());
        assert forall|i: int| 0 <= i < one.len() implies one[i] == other[i] by {
            assert(strings_of(one)[i] == strings_of(other)[i]);
        }
        assert(one =~= other);
    }
}

/// One entry that is not a string is enough for the fault, wherever in the
/// list it stands and whatever the other entries are.
pub proof fn lemma_one_stray_entry_is_a_fault(
    entries: Seq<Option<Seq<char>>>,
    which: Capability,
    at: int,
)
    requires
        0 <= at < entries.len(),
        entries[at] is None,
    ensures
        names_rule(entries, which) == Err::<Seq<Seq<char>>, BindingFault>(
            BindingFault::NameNotString(which),
        ),
{
}

/// Checks a capability list that has been read entry by entry, `None` standing
/// for an entry that is not a string.
pub fn require_strings(entries: &Vec<Option<String>>, which: Capability) -> (result: Result<
    Vec<String>,
    BindingFault,
>)
    ensures
        names_match(result, entries.deep_view(), which),
{
    let ghost model = entries.deep_view();
    let mut names: Vec<String> = Vec::new();
    let mut i: usize = 0;
    while i < entries.len()
        invariant
            model == entries.deep_view(),
            i <= entries.len(),
            names.len() == i,
            forall|k: int| 0 <= k < i ==> (#[trigger] model[k]) == Some(names[k]@),
        decreases entries.len() - i,
    {
        assert(model[i as int] == entries[i as int].deep_view());
        match &entries[i] {
            Some(text) => {
                names.push(text.clone());
            },
            None => {
                assert(!all_strings(model));
                return Err(BindingFault::NameNotString(which));
            },
        }
        i = i + 1;
    }
    assert(all_strings(model));
    assert(names.deep_view() =~= strings_of(model));
    Ok(names)
}

/// What the two rules for a capability list give together, for some answer
/// of the instance: the fault of [`list_rule`] where no list was read, and
/// else what [`names_rule`] gives for the entries that were.
pub open spec fn names_answer(result: Result<Vec<String>, BindingFault>, which: Capability) -> bool {
    result == Err::<Vec<String>, BindingFault>(BindingFault::NotAList(which)) || exists|
        entries: Seq<Option<Seq<char>>>,
    | #[trigger] names_match(result, entries, which)
}

/// Two instances that answer with the same list give the same result: both
/// the fault, or both the same names in the same order. The names are as many
/// as the entries, so a list that is not empty gives names that are not
/// empty, and each name is the text of its entry, so an entry that is a
/// filled string gives a filled name.
pub proof fn lemma_same_list_same_names(
    first: Result<Vec<String>, BindingFault>,
    second: Result<Vec<String>, BindingFault>,
    entries: Seq<Option<Seq<char>>>,
    which: Capability,
)
    requires
        names_match(first, entries, which),
        names_match(second, entries, which),
    ensures
        first is Ok <==> all_strings(entries),
        first is Ok <==> second is Ok,
        first matches Err(fault) ==> second == Err::<Vec<String>, BindingFault>(fault) && fault
            == BindingFault::NameNotString(which),
        first matches Ok(names) ==> names.deep_view() == second->Ok_0.deep_view(),
        first matches Ok(names) ==> names.len() == entries.len(),
        first matches Ok(names) ==> forall|i: int|
            0 <= i < entries.len() ==> entries[i] == Some(#[trigger] names.deep_view()[i]),
{
    if first is Ok {
        assert(first->Ok_0.deep_view() == strings_of(entries));
        assert(second->Ok_0.deep_view() == strings_of(entries));
        assert(first->Ok_0.deep_view().len() == first->Ok_0.len());
    }
}

/// Reads a list across the boundary: each entry as text, `None` for an entry
/// that is not a string. The list is the runtime's and is read as it is at
/// each step, so nothing is promised about what is read.
pub fn read_list(list: &js_sys::Array) -> (entries: Vec<Option<String>>) {
    let len: u32 = list_len(list);
    let mut entries: Vec<Option<String>> = Vec::new();
    let mut i: u32 = 0;
    while i < len
        invariant
            i <= len,
        decreases len - i,
    {
        entries.push(list_text_at(list, i));
        i = i + 1;
    }
    entries
}

} // verus!
