//! Properties of the session lifecycle and of the text conversions that hold
//! across calls.

use vstd::prelude::*;
use vstd::utf8::{decode_utf8, valid_utf8};
use crate::convert::{
    before_first_nul, bytes_view, decoded_entries, decoded_list, decoded_opt, entries_view,
    string_list_view, string_view, strings_view,
};
use crate::ffi::{
    init_creates, init_installed, init_skipped, refuses_caller, render_gate,
    render_precheck_gate, shutdown_step, ssp_render_input, stats_gate, stats_precheck_gate,
    target_of, FfiError, HostState, RenderProperties,
};

verus! {

/// Creating a session while one exists runs no creation, succeeds and
/// changes nothing.
pub proof fn law_init_twice_changes_nothing<S>(h: HostState<S>, pid: u32)
    requires
        h.session is Some,
        !refuses_caller(h.owner_pid, pid),
    ensures
        !init_creates(h, pid),
        init_skipped(h, pid) == (h, Ok::<(), FfiError>(())),
{
}

/// Shutting down is idempotent: once the session is gone, a further
/// shutdown, from any process, succeeds, hands back nothing and changes
/// nothing.
pub proof fn law_shutdown_is_idempotent<S>(h: HostState<S>, pid: u32, later_pid: u32)
    requires
        !refuses_caller(h.owner_pid, pid),
    ensures
        ({
            let idle = shutdown_step(h, pid).0;
            shutdown_step(idle, later_pid) == (idle, Ok::<Option<S>, FfiError>(None))
        }),
{
}

/// After a shutdown, rendering and reading counters fail with
/// `NotInitialized` for every process, until a session is created again.
pub proof fn law_no_session_after_shutdown<S>(h: HostState<S>, pid: u32, later_pid: u32)
    requires
        !refuses_caller(h.owner_pid, pid),
    ensures
        render_gate(shutdown_step(h, pid).0, later_pid, true, true) == Some(
            FfiError::NotInitialized,
        ),
        stats_gate(shutdown_step(h, pid).0, later_pid, true) == Some(FfiError::NotInitialized),
{
}

/// Creating after a shutdown installs exactly the session just made, owned by
/// the caller: nothing of the earlier session survives.
pub proof fn law_recreate_is_fresh<S>(h: HostState<S>, pid: u32, later_pid: u32, fresh: S)
    requires
        !refuses_caller(h.owner_pid, pid),
    ensures
        init_creates(shutdown_step(h, pid).0, later_pid),
        init_installed(shutdown_step(h, pid).0, later_pid, Ok(fresh)) == (
            HostState { session: Some(fresh), owner_pid: later_pid },
            Ok::<(), FfiError>(()),
        ),
{
}

/// A failed creation leaves the host as it was, so creating can be retried.
pub proof fn law_failed_init_changes_nothing<S>(h: HostState<S>, pid: u32, message: String)
    ensures
        init_installed(h, pid, Err(message)) == (h, Err::<(), FfiError>(FfiError::Failed(message))),
{
}

/// A process forked from the owner of the session is refused on every call
/// and changes nothing.
pub proof fn law_forked_child_is_refused<S>(h: HostState<S>, pid: u32)
    requires
        refuses_caller(h.owner_pid, pid),
    ensures
        !init_creates(h, pid),
        init_skipped(h, pid) == (h, Err::<(), FfiError>(FfiError::ForkedChild)),
        shutdown_step(h, pid) == (h, Err::<Option<S>, FfiError>(FfiError::ForkedChild)),
        render_gate(h, pid, true, true) == Some(FfiError::ForkedChild),
        stats_gate(h, pid, true) == Some(FfiError::ForkedChild),
{
}

/// Every call keeps "no owner while there is no session", so a host without
/// a session refuses no process.
pub proof fn law_idle_host_refuses_nobody<S>(
    h: HostState<S>,
    pid: u32,
    made: Result<S, String>,
    any_pid: u32,
)
    requires
        h.owner_cleared_when_idle(),
    ensures
        init_skipped(h, pid).0.owner_cleared_when_idle(),
        init_installed(h, pid, made).0.owner_cleared_when_idle(),
        shutdown_step(h, pid).0.owner_cleared_when_idle(),
        h.session is None ==> !refuses_caller(h.owner_pid, any_pid),
{
}

/// Text without a NUL character reaches C whole.
pub proof fn law_text_without_nul_is_kept(s: Seq<char>)
    requires
        !s.contains('\0'),
    ensures
        before_first_nul(s) == s,
    decreases s.len(),
{
    if s.len() > 0 {
        assert(s[0] != '\0') by {
            assert(s.contains(s[0]));
        }
        let rest = s.drop_first();
        assert(!rest.contains('\0')) by {
            if rest.contains('\0') {
                let j = choose|j: int| 0 <= j < rest.len() && rest[j] == '\0';
                assert(s[j + 1] == '\0');
            }
        }
        law_text_without_nul_is_kept(rest);
        assert(s == seq![s[0]] + rest);
    }
}

/// A NUL character cuts the text there: what precedes it reaches C and
/// nothing after it does.
pub proof fn law_text_is_cut_at_first_nul(prefix: Seq<char>, rest: Seq<char>)
    requires
        !prefix.contains('\0'),
    ensures
        before_first_nul(prefix + seq!['\0'] + rest) == prefix,
    decreases prefix.len(),
{
    let whole = prefix + seq!['\0'] + rest;
    if prefix.len() == 0 {
        assert(whole[0] == '\0');
    } else {
        let tail = prefix.drop_first();
        assert(prefix[0] != '\0') by {
            assert(prefix.contains(prefix[0]));
        }
        assert(!tail.contains('\0')) by {
            if tail.contains('\0') {
                let j = choose|j: int| 0 <= j < tail.len() && tail[j] == '\0';
                assert(prefix[j + 1] == '\0');
            }
        }
        law_text_is_cut_at_first_nul(tail, rest);
        assert(whole.drop_first() == tail + seq!['\0'] + rest);
        assert(prefix == seq![prefix[0]] + tail);
    }
}

/// A caller is refused exactly when a session owner is recorded and the
/// caller is another process.
pub proof fn law_refusal_is_exactly_another_process(owner_pid: u32, pid: u32)
    ensures
        refuses_caller(owner_pid, pid) <==> (owner_pid != 0 && owner_pid != pid),
        render_precheck_gate(owner_pid, pid, true, true) is None <==> (owner_pid == 0 || owner_pid
            == pid),
        stats_precheck_gate(owner_pid, pid, true) is None <==> (owner_pid == 0 || owner_pid == pid),
{
}

/// The process that owns a live session is served on every call: a render
/// and a counter read run, creating again keeps the session, and a shutdown
/// hands the session back and clears the owner.
pub proof fn law_owner_is_served<S>(h: HostState<S>, pid: u32)
    requires
        h.session is Some,
        h.owner_pid == pid || h.owner_pid == 0,
    ensures
        render_gate(h, pid, true, true) is None,
        stats_gate(h, pid, true) is None,
        !init_creates(h, pid),
        init_skipped(h, pid) == (h, Ok::<(), FfiError>(())),
        shutdown_step(h, pid) == (
            HostState::<S> { session: None, owner_pid: 0 },
            Ok::<Option<S>, FfiError>(h.session),
        ),
{
}

/// Every process other than a recorded owner is refused on every call, and
/// nothing changes.
pub proof fn law_other_process_is_refused_everywhere<S>(h: HostState<S>, pid: u32)
    requires
        h.owner_pid != 0,
        h.owner_pid != pid,
    ensures
        render_gate(h, pid, true, true) == Some(FfiError::ForkedChild),
        stats_gate(h, pid, true) == Some(FfiError::ForkedChild),
        !init_creates(h, pid),
        init_skipped(h, pid) == (h, Err::<(), FfiError>(FfiError::ForkedChild)),
        shutdown_step(h, pid) == (h, Err::<Option<S>, FfiError>(FfiError::ForkedChild)),
{
}

/// A present C string that is well-formed UTF-8 always decodes to its
/// characters, whatever its length; anything else decodes to nothing.
pub proof fn law_present_string_decodes(b: Seq<u8>)
    ensures
        valid_utf8(b) ==> decoded_opt(Some(b)) == Some(decode_utf8(b)),
        !valid_utf8(b) ==> decoded_opt(Some(b)) is None,
        decoded_opt(None) is None,
{
}

/// Decoding a C string array goes entry by entry: an empty array gives no
/// text, a well-formed entry appended to the array appends its decoding, and
/// an absent or malformed entry appended changes nothing.
pub proof fn law_array_decodes_entry_by_entry(e: Seq<Option<Seq<u8>>>, b: Seq<u8>)
    ensures
        decoded_entries(Seq::<Option<Seq<u8>>>::empty()) == Seq::<Seq<char>>::empty(),
        valid_utf8(b) ==> decoded_entries(e.push(Some(b))) == decoded_entries(e).push(
            decode_utf8(b),
        ),
        !valid_utf8(b) ==> decoded_entries(e.push(Some(b))) == decoded_entries(e),
        decoded_entries(e.push(None)) == decoded_entries(e),
{
    assert(e.push(Some(b)).drop_last() == e);
    assert(e.push(None::<Seq<u8>>).drop_last() == e);
}

/// A decoded array is absent exactly when no entry survives, and otherwise
/// holds every surviving entry.
pub proof fn law_array_is_absent_only_when_empty(e: Seq<Option<Seq<u8>>>)
    ensures
        decoded_list(None) is None,
        decoded_entries(e).len() == 0 ==> decoded_list(Some(e)) is None,
        decoded_entries(e).len() > 0 ==> decoded_list(Some(e)) == Some(decoded_entries(e)),
{
}

/// The views of byte strings, arrays and texts keep every element, in order.
pub proof fn law_views_keep_every_element(
    b: Option<Vec<u8>>,
    v: Seq<Option<Vec<u8>>>,
    t: Option<String>,
    l: Seq<String>,
)
    ensures
        b matches Some(bytes) ==> bytes_view(b) == Some(bytes@),
        b is None ==> bytes_view(b) is None,
        entries_view(v).len() == v.len(),
        forall|i: int| 0 <= i < v.len() ==> #[trigger] entries_view(v)[i] == bytes_view(v[i]),
        t matches Some(text) ==> string_view(t) == Some(text@),
        t is None ==> string_view(t) is None,
        strings_view(l).len() == l.len(),
        forall|i: int| 0 <= i < l.len() ==> #[trigger] strings_view(l)[i] == l[i]@,
        string_list_view(None) is None,
{
}

/// How one field of a request reads, stated directly on its bytes.
pub open spec fn field_reads_as(field: Option<Vec<u8>>, text: Option<Seq<char>>) -> bool {
    match field {
        Some(b) => if valid_utf8(b@) {
            text == Some(decode_utf8(b@))
        } else {
            text is None
        },
        None => text is None,
    }
}

/// Each property of a request is decoded from its own field: every text
/// field is its field's decoding, the keymap falls back to "viins" only
/// when its field does not decode, SHLVL is kept when not negative, and the
/// numbers pass through.
pub proof fn law_request_fields_decode(input: ssp_render_input)
    ensures
        field_reads_as(input.status, input.spec_properties().status_code),
        field_reads_as(input.path, input.spec_properties().path),
        field_reads_as(input.logical_path, input.spec_properties().logical_path),
        field_reads_as(input.cmd_duration, input.spec_properties().cmd_duration),
        input.spec_properties().pipestatus == decoded_list(
            match input.pipestatus {
                Some(v) => Some(entries_view(v@)),
                None => None,
            },
        ),
        match input.keymap {
            Some(b) => if valid_utf8(b@) {
                input.spec_properties().keymap == decode_utf8(b@)
            } else {
                input.spec_properties().keymap == "viins"@
            },
            None => input.spec_properties().keymap == "viins"@,
        },
        input.spec_properties().terminal_width == input.terminal_width,
        input.spec_properties().jobs == input.jobs,
        input.shlvl >= 0 ==> input.spec_properties().shlvl == Some(input.shlvl),
        input.shlvl < 0 ==> input.spec_properties().shlvl is None,
{
}

/// The view of render properties shows each of their fields.
pub proof fn law_properties_view_shows_fields(p: RenderProperties)
    ensures
        p@.status_code == string_view(p.status_code),
        p@.pipestatus == string_list_view(p.pipestatus),
        p@.path == string_view(p.path),
        p@.logical_path == string_view(p.logical_path),
        p@.cmd_duration == string_view(p.cmd_duration),
        p@.keymap == p.keymap@,
        p@.terminal_width == p.terminal_width,
        p@.jobs == p.jobs,
        p@.shlvl == p.shlvl,
{
}

/// Target code 1 selects the right prompt, 2 the continuation prompt, and
/// every other code the main prompt.
pub proof fn law_target_codes(code: i32)
    ensures
        target_of(code) == crate::ffi::PromptTarget::Right <==> code == 1,
        target_of(code) == crate::ffi::PromptTarget::Continuation <==> code == 2,
        target_of(code) == crate::ffi::PromptTarget::Main <==> (code != 1 && code != 2),
{
}

/// The texts that the shell receives for each error.
pub proof fn law_error_messages(message: String)
    ensures
        FfiError::NullArgument.spec_message() == "null argument"@,
        FfiError::NotInitialized.spec_message() == "session is not initialized"@,
        FfiError::ForkedChild.spec_message() == "refusing call in forked child process"@,
        FfiError::Failed(message).spec_message() == message@,
{
}

} // verus!
