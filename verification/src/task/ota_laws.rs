//! What holds of every firmware update, over all that can come of its actions.

#[allow(unused_imports)]
use crate::task::firmware::{
    has_readable_info, image_tells_its_version, info_of, padded, APP_DESC_END,
};
#[allow(unused_imports)]
use crate::task::ota::{
    is_length_readable, UpdateAction, UpdateEvent, UpdatePhase, UpdateState, BUF_MAX,
    RESTART_DELAY_MS,
};
#[allow(unused_imports)]
use crate::decimal::number_in;
use vstd::prelude::*;
#[allow(unused_imports)]
use vstd::string::StringSliceAdditionalSpecFns;

verus! {

/// One event of an update, with the buffer as it is then.
pub struct UpdateInput {
    pub event: UpdateEvent,
    pub buffer: Seq<u8>,
}

/// The update that began as `start`, after all of `inputs`.
pub open spec fn run(start: UpdateState, inputs: Seq<UpdateInput>) -> UpdateState
    decreases inputs.len(),
{
    if inputs.len() == 0 {
        start
    } else {
        run(start, inputs.drop_last()).next(inputs.last().event, inputs.last().buffer)
    }
}

/// Whether each of `inputs` can come where it stands, with a buffer that has
/// room for more than an image's descriptor.
pub open spec fn is_run(start: UpdateState, inputs: Seq<UpdateInput>) -> bool
    decreases inputs.len(),
{
    inputs.len() > 0 ==> {
        &&& is_run(start, inputs.drop_last())
        &&& run(start, inputs.drop_last()).accepts(inputs.last().event, inputs.last().buffer)
        &&& APP_DESC_END < inputs.last().buffer.len() <= usize::MAX
    }
}

/// How many bytes were read into the buffers that were given to be written.
pub open spec fn bytes_given(start: UpdateState, inputs: Seq<UpdateInput>) -> nat
    decreases inputs.len(),
{
    if inputs.len() == 0 {
        0
    } else {
        bytes_given(start, inputs.drop_last()) + match run(start, inputs).phase {
            UpdatePhase::Writing { data_read, .. } => data_read as nat,
            _ => 0,
        }
    }
}

/// How often the image was to be looked at.
pub open spec fn header_loads(start: UpdateState, inputs: Seq<UpdateInput>) -> nat
    decreases inputs.len(),
{
    if inputs.len() == 0 {
        0
    } else {
        header_loads(start, inputs.drop_last()) + if run(start, inputs).action()
            == UpdateAction::LoadHeader {
            1nat
        } else {
            0
        }
    }
}

/// An update never forgets the length of its image or the version that it must
/// not have.
pub proof fn terms_stay(start: UpdateState, inputs: Seq<UpdateInput>)
    ensures
        run(start, inputs).content_length == start.content_length,
        run(start, inputs).invalid_version == start.invalid_version,
    decreases inputs.len(),
{
    if inputs.len() > 0 {
        terms_stay(start, inputs.drop_last());
    }
}

/// The bytes that count are those in the buffers that were given to be written.
pub proof fn counts_what_is_given(
    content_length: nat,
    invalid_version: Option<Seq<char>>,
    inputs: Seq<UpdateInput>,
)
    requires
        is_run(UpdateState::start(content_length, invalid_version), inputs),
    ensures
        run(UpdateState::start(content_length, invalid_version), inputs).bytes_read_total
            == bytes_given(UpdateState::start(content_length, invalid_version), inputs),
    decreases inputs.len(),
{
    if inputs.len() > 0 {
        counts_what_is_given(content_length, invalid_version, inputs.drop_last());
    }
}

/// An update is completed exactly where the bytes in the buffers that were
/// given to be written are as many as the image is long, and is given up in
/// every other case.
pub proof fn completes_at_full_length(
    content_length: nat,
    invalid_version: Option<Seq<char>>,
    inputs: Seq<UpdateInput>,
)
    requires
        is_run(UpdateState::start(content_length, invalid_version), inputs),
        run(UpdateState::start(content_length, invalid_version), inputs).phase
            == UpdatePhase::Finished,
    ensures
        ({
            let start = UpdateState::start(content_length, invalid_version);
            let given = bytes_given(start, inputs);
            &&& run(start, inputs).action() == UpdateAction::Complete <==> given == content_length
            &&& run(start, inputs).action() == UpdateAction::Abort <==> given != content_length
        }),
{
    counts_what_is_given(content_length, invalid_version, inputs);
    terms_stay(UpdateState::start(content_length, invalid_version), inputs);
}

/// However a finished update ends, completed, not completed or given up, the
/// device then restarts after the delay. It restarts in no other case, and after
/// that nothing more can come.
pub proof fn every_end_restarts(state: UpdateState, event: UpdateEvent, buffer: Seq<u8>)
    requires
        state.accepts(event, buffer),
    ensures
        state.phase == UpdatePhase::Finished <==> state.next(event, buffer).action() == (
        UpdateAction::Restart { delay_ms: RESTART_DELAY_MS }),
        state.next(event, buffer).action() is Restart ==> forall|e: UpdateEvent, b: Seq<u8>|
            !#[trigger] state.next(event, buffer).accepts(e, b),
{
}

/// What is written is always the whole buffer, also what lies behind the bytes
/// that were read into it.
pub proof fn whole_buffer_is_written(state: UpdateState, event: UpdateEvent, buffer: Seq<u8>)
    requires
        state.accepts(event, buffer),
        buffer.len() <= usize::MAX,
    ensures
        state.next(event, buffer).action() matches UpdateAction::Write { len } ==> buffer.take(
            len as int,
        ) == buffer,
{
    assert(buffer.take(buffer.len() as int) =~= buffer);
}

/// A failed read or write finishes the update.
pub proof fn failure_finishes(state: UpdateState, event: UpdateEvent, buffer: Seq<u8>)
    requires
        state.accepts(event, buffer),
        event == UpdateEvent::ReadFailed || event == UpdateEvent::WriteFailed,
    ensures
        state.next(event, buffer).phase == UpdatePhase::Finished,
        state.next(event, buffer).bytes_read_total == state.bytes_read_total,
{
}

/// Once `len` bytes of the buffer are written the update goes on exactly where
/// the read before had filled them.
pub proof fn short_read_is_the_last(
    state: UpdateState,
    data_read: usize,
    len: usize,
    buffer: Seq<u8>,
)
    requires
        state.phase == (UpdatePhase::Writing { data_read, len }),
    ensures
        state.next(UpdateEvent::Written, buffer).phase == UpdatePhase::Finished
            <==> data_read < len,
        state.next(UpdateEvent::Written, buffer).action() == UpdateAction::Read <==> data_read
            >= len,
{
}

/// The image is looked at no more than once.
pub proof fn header_is_loaded_once(
    content_length: nat,
    invalid_version: Option<Seq<char>>,
    inputs: Seq<UpdateInput>,
)
    requires
        is_run(UpdateState::start(content_length, invalid_version), inputs),
    ensures
        header_loads(UpdateState::start(content_length, invalid_version), inputs) <= 1,
{
    lemma_header_loads(content_length, invalid_version, inputs);
}

proof fn lemma_header_loads(
    content_length: nat,
    invalid_version: Option<Seq<char>>,
    inputs: Seq<UpdateInput>,
)
    requires
        is_run(UpdateState::start(content_length, invalid_version), inputs),
    ensures
        ({
            let start = UpdateState::start(content_length, invalid_version);
            let state = run(start, inputs);
            let loads = header_loads(start, inputs);
            &&& loads <= 1
            &&& loads == 1 ==> state.image_header_was_checked || state.phase is Checking
                || state.phase is Finished || state.phase is Ended
            &&& state.phase is Checking ==> !state.image_header_was_checked
        }),
    decreases inputs.len(),
{
    if inputs.len() > 0 {
        lemma_header_loads(content_length, invalid_version, inputs.drop_last());
    }
}

/// Until the image was looked at, no buffer was given to be written, but for
/// one whose read was too short to show the image's descriptor; and with that
/// one the update ends.
pub proof fn nothing_is_given_unchecked(
    content_length: nat,
    invalid_version: Option<Seq<char>>,
    inputs: Seq<UpdateInput>,
)
    requires
        is_run(UpdateState::start(content_length, invalid_version), inputs),
        !run(
            UpdateState::start(content_length, invalid_version),
            inputs,
        ).image_header_was_checked,
    ensures
        ({
            let start = UpdateState::start(content_length, invalid_version);
            let state = run(start, inputs);
            let given = bytes_given(start, inputs);
            &&& given <= APP_DESC_END
            &&& state.phase is Reading || state.phase is Checking ==> given == 0
        }),
    decreases inputs.len(),
{
    let start = UpdateState::start(content_length, invalid_version);
    if inputs.len() > 0 {
        let before = run(start, inputs.drop_last());
        assert(before.image_header_was_checked ==> run(start, inputs).image_header_was_checked);
        nothing_is_given_unchecked(content_length, invalid_version, inputs.drop_last());
        lemma_short_write(content_length, invalid_version, inputs.drop_last());
    }
}

proof fn lemma_short_write(
    content_length: nat,
    invalid_version: Option<Seq<char>>,
    inputs: Seq<UpdateInput>,
)
    requires
        is_run(UpdateState::start(content_length, invalid_version), inputs),
    ensures
        ({
            let state = run(UpdateState::start(content_length, invalid_version), inputs);
            state.phase matches UpdatePhase::Writing { data_read, len }
                ==> !state.image_header_was_checked ==> data_read <= APP_DESC_END < len
        }),
{
    reveal_with_fuel(run, 2);
}

/// An image of the version that it must not have is refused: no buffer of it
/// was or is given to be written, and the update is given up. The one exception
/// is an image whose length is unknown or 0.
pub proof fn invalid_version_is_refused(
    content_length: nat,
    version: Seq<char>,
    inputs: Seq<UpdateInput>,
    buffer: Seq<u8>,
)
    requires
        content_length > 0,
        is_run(UpdateState::start(content_length, Some(version)), inputs),
        run(UpdateState::start(content_length, Some(version)), inputs).phase is Checking,
        info_of(buffer).version == version,
    ensures
        ({
            let start = UpdateState::start(content_length, Some(version));
            let refused = run(start, inputs).next(UpdateEvent::HeaderLoaded, buffer);
            &&& bytes_given(start, inputs) == 0
            &&& refused.phase == UpdatePhase::Finished
            &&& refused.action() == UpdateAction::Abort
        }),
{
    let start = UpdateState::start(content_length, Some(version));
    terms_stay(start, inputs);
    lemma_header_loads(content_length, Some(version), inputs);
    nothing_is_given_unchecked(content_length, Some(version), inputs);
    counts_what_is_given(content_length, Some(version), inputs);
}

/// An image of any other version is not refused for its version: its buffer is
/// given to be written.
pub proof fn other_version_is_taken(state: UpdateState, data_read: usize, buffer: Seq<u8>)
    requires
        state.phase == (UpdatePhase::Checking { data_read }),
        buffer.len() > 0,
        state.invalid_version != Some(info_of(buffer).version),
    ensures
        state.next(UpdateEvent::HeaderLoaded, buffer).action() is Write,
        state.next(UpdateEvent::HeaderLoaded, buffer).image_header_was_checked,
{
}

/// Whether each of `inputs` can come where it stands, with a buffer of any size.
pub open spec fn is_history(start: UpdateState, inputs: Seq<UpdateInput>) -> bool
    decreases inputs.len(),
{
    inputs.len() > 0 ==> {
        &&& is_history(start, inputs.drop_last())
        &&& run(start, inputs.drop_last()).accepts(inputs.last().event, inputs.last().buffer)
        &&& inputs.last().buffer.len() <= usize::MAX
    }
}

/// How many bytes all reads among `inputs` brought.
pub open spec fn reads_total(inputs: Seq<UpdateInput>) -> nat
    decreases inputs.len(),
{
    if inputs.len() == 0 {
        0
    } else {
        reads_total(inputs.drop_last()) + match inputs.last().event {
            UpdateEvent::Read { data_read } => data_read as nat,
            _ => 0,
        }
    }
}

/// How many bytes the last read among `inputs` brought; 0 without one.
pub open spec fn last_read(inputs: Seq<UpdateInput>) -> nat
    decreases inputs.len(),
{
    if inputs.len() == 0 {
        0
    } else {
        match inputs.last().event {
            UpdateEvent::Read { data_read } => data_read as nat,
            _ => last_read(inputs.drop_last()),
        }
    }
}

/// Whether the image was looked at.
pub open spec fn is_looked_at(inputs: Seq<UpdateInput>) -> bool {
    exists|i: int| 0 <= i < inputs.len() && (#[trigger] inputs[i]).event == UpdateEvent::HeaderLoaded
}

/// Whether the image was looked at and had the version that it must not have.
pub open spec fn is_refused(invalid_version: Option<Seq<char>>, inputs: Seq<UpdateInput>) -> bool {
    exists|i: int|
        0 <= i < inputs.len() && (#[trigger] inputs[i]).event == UpdateEvent::HeaderLoaded
            && invalid_version == Some(info_of(inputs[i].buffer).version)
}

/// Whether the update reads and writes no more and is about to end.
pub open spec fn is_ending(action: UpdateAction) -> bool {
    action == UpdateAction::Complete || action == UpdateAction::Abort
}

proof fn lemma_looked_at(invalid_version: Option<Seq<char>>, inputs: Seq<UpdateInput>)
    requires
        inputs.len() > 0,
    ensures
        is_looked_at(inputs) <==> is_looked_at(inputs.drop_last()) || inputs.last().event
            == UpdateEvent::HeaderLoaded,
        is_refused(invalid_version, inputs) <==> is_refused(invalid_version, inputs.drop_last())
            || inputs.last().event == UpdateEvent::HeaderLoaded && invalid_version == Some(
            info_of(inputs.last().buffer).version,
        ),
{
    let before = inputs.drop_last();
    assert(forall|i: int| 0 <= i < before.len() ==> #[trigger] before[i] == inputs[i]);
    assert(forall|i: int|
        0 <= i < inputs.len() - 1 ==> #[trigger] inputs[i] == before[i]);
    assert(inputs[inputs.len() - 1] == inputs.last());
}

proof fn lemma_history(
    content_length: nat,
    invalid_version: Option<Seq<char>>,
    inputs: Seq<UpdateInput>,
)
    requires
        is_history(UpdateState::start(content_length, invalid_version), inputs),
    ensures
        ({
            let state = run(UpdateState::start(content_length, invalid_version), inputs);
            let refused = is_refused(invalid_version, inputs);
            &&& state.content_length == content_length
            &&& state.invalid_version == invalid_version
            &&& state.image_header_was_checked <==> is_looked_at(inputs) && !refused
            &&& refused ==> is_looked_at(inputs) && (state.phase is Finished || state.phase is Ended)
            &&& state.phase matches UpdatePhase::Checking { data_read } ==> data_read == last_read(
                inputs,
            ) && !is_looked_at(inputs)
            &&& state.phase matches UpdatePhase::Writing { data_read, len } ==> data_read
                == last_read(inputs)
            &&& state.bytes_read_total + (if refused || state.phase is Checking {
                last_read(inputs)
            } else {
                0
            }) == reads_total(inputs)
        }),
    decreases inputs.len(),
{
    if inputs.len() > 0 {
        lemma_history(content_length, invalid_version, inputs.drop_last());
        lemma_looked_at(invalid_version, inputs);
    }
}

/// An update begins by reading.
pub proof fn update_begins_by_reading(content_length: nat, invalid_version: Option<Seq<char>>)
    ensures
        UpdateState::start(content_length, invalid_version).action() == UpdateAction::Read,
{
}

/// What an update counts is the sum of what its reads brought. Only the read of
/// an image that is still to be looked at, or that was refused, does not count.
pub proof fn total_is_what_was_read(
    content_length: nat,
    invalid_version: Option<Seq<char>>,
    inputs: Seq<UpdateInput>,
)
    requires
        is_history(UpdateState::start(content_length, invalid_version), inputs),
    ensures
        ({
            let state = run(UpdateState::start(content_length, invalid_version), inputs);
            if state.action() == UpdateAction::LoadHeader || is_refused(invalid_version, inputs) {
                state.bytes_read_total + last_read(inputs) == reads_total(inputs)
            } else {
                state.bytes_read_total == reads_total(inputs)
            }
        }),
{
    lemma_history(content_length, invalid_version, inputs);
}

/// A read whose bytes are to be written counts with exactly those bytes, and
/// what is written is the whole buffer; it makes no difference whether the image
/// was looked at first.
pub proof fn taken_in_read_counts(
    state: UpdateState,
    data_read: usize,
    buffer: Seq<u8>,
    looked_at: Seq<u8>,
)
    requires
        state.accepts(UpdateEvent::Read { data_read }, buffer),
        0 < buffer.len() <= usize::MAX,
        0 < looked_at.len() <= usize::MAX,
    ensures
        ({
            let read = state.next(UpdateEvent::Read { data_read }, buffer);
            let loaded = read.next(UpdateEvent::HeaderLoaded, looked_at);
            &&& read.action() is Write ==> {
                &&& read.bytes_read_total == state.bytes_read_total + data_read
                &&& read.phase == (UpdatePhase::Writing { data_read, len: buffer.len() as usize })
            }
            &&& read.action() is LoadHeader ==> read.bytes_read_total == state.bytes_read_total
            &&& read.action() is Write || read.action() is LoadHeader
            &&& read.action() is LoadHeader && loaded.action() is Write ==> {
                &&& loaded.bytes_read_total == state.bytes_read_total + data_read
                &&& loaded.phase == (UpdatePhase::Writing {
                    data_read,
                    len: looked_at.len() as usize,
                })
            }
        }),
{
}

/// Only a read, or the look at what it brought, ever adds to what is counted.
pub proof fn nothing_else_counts(state: UpdateState, event: UpdateEvent, buffer: Seq<u8>)
    requires
        state.accepts(event, buffer),
        !(event is Read),
        !(event is HeaderLoaded),
    ensures
        state.next(event, buffer).bytes_read_total == state.bytes_read_total,
{
}

/// An image passes for checked exactly from the look at it on that shows another
/// version than the one that it must not have.
pub proof fn only_another_version_is_checked(
    state: UpdateState,
    event: UpdateEvent,
    buffer: Seq<u8>,
)
    requires
        state.accepts(event, buffer),
    ensures
        state.next(event, buffer).image_header_was_checked <==> {
            ||| state.image_header_was_checked
            ||| event == UpdateEvent::HeaderLoaded && state.invalid_version != Some(
                info_of(buffer).version,
            )
        },
{
}

/// An update whose image was not refused ends by completing exactly where its
/// reads brought as many bytes as the image is long, and by being given up
/// otherwise. Where the image was refused, the read that showed it does not
/// count.
pub proof fn completes_when_all_was_read(
    content_length: nat,
    invalid_version: Option<Seq<char>>,
    inputs: Seq<UpdateInput>,
)
    requires
        is_history(UpdateState::start(content_length, invalid_version), inputs),
        is_ending(run(UpdateState::start(content_length, invalid_version), inputs).action()),
    ensures
        ({
            let action = run(UpdateState::start(content_length, invalid_version), inputs).action();
            let counted = if is_refused(invalid_version, inputs) {
                reads_total(inputs) - last_read(inputs)
            } else {
                reads_total(inputs) as int
            };
            &&& action == UpdateAction::Complete <==> counted == content_length
            &&& action == UpdateAction::Abort <==> counted != content_length
        }),
{
    lemma_history(content_length, invalid_version, inputs);
}

/// The first read of more than 288 bytes has the image looked at, however long
/// the image is, and no other read has. After every other read the whole buffer
/// is written, or the update ends where the buffer has no room for anything.
pub proof fn first_long_read_is_looked_at(
    content_length: nat,
    invalid_version: Option<Seq<char>>,
    inputs: Seq<UpdateInput>,
    data_read: usize,
    buffer: Seq<u8>,
)
    requires
        is_history(
            UpdateState::start(content_length, invalid_version),
            inputs.push(UpdateInput { event: UpdateEvent::Read { data_read }, buffer }),
        ),
    ensures
        ({
            let after = inputs.push(UpdateInput { event: UpdateEvent::Read { data_read }, buffer });
            let action = run(UpdateState::start(content_length, invalid_version), after).action();
            if data_read > 288 && !is_looked_at(inputs) {
                action == UpdateAction::LoadHeader
            } else if buffer.len() > 0 {
                action == (UpdateAction::Write { len: buffer.len() as usize })
            } else {
                is_ending(action)
            }
        }),
{
    let after = inputs.push(UpdateInput { event: UpdateEvent::Read { data_read }, buffer });
    assert(after.drop_last() =~= inputs);
    lemma_history(content_length, invalid_version, inputs);
}

/// The image is only ever looked at after a read.
pub proof fn only_a_read_is_looked_at(
    state: UpdateState,
    event: UpdateEvent,
    buffer: Seq<u8>,
)
    requires
        state.accepts(event, buffer),
        state.next(event, buffer).action() == UpdateAction::LoadHeader,
    ensures
        event matches UpdateEvent::Read { data_read } && data_read > 288,
{
}

/// An image that was looked at is written, from the buffer that shows it on,
/// unless it has the version that it must not have. With that version the update
/// ends.
pub proof fn version_decides(
    content_length: nat,
    invalid_version: Option<Seq<char>>,
    inputs: Seq<UpdateInput>,
    buffer: Seq<u8>,
)
    requires
        is_history(
            UpdateState::start(content_length, invalid_version),
            inputs.push(UpdateInput { event: UpdateEvent::HeaderLoaded, buffer }),
        ),
    ensures
        ({
            let after = inputs.push(UpdateInput { event: UpdateEvent::HeaderLoaded, buffer });
            let action = run(UpdateState::start(content_length, invalid_version), after).action();
            if invalid_version == Some(info_of(buffer).version) {
                is_ending(action)
            } else {
                action == (UpdateAction::Write { len: buffer.len() as usize })
            }
        }),
{
    let after = inputs.push(UpdateInput { event: UpdateEvent::HeaderLoaded, buffer });
    assert(after.drop_last() =~= inputs);
    lemma_history(content_length, invalid_version, inputs);
}

/// Once a buffer is written, the update reads on exactly where the last read
/// brought as many bytes as were written; otherwise it ends.
pub proof fn reads_on_after_a_full_buffer(
    content_length: nat,
    invalid_version: Option<Seq<char>>,
    inputs: Seq<UpdateInput>,
    len: usize,
    buffer: Seq<u8>,
)
    requires
        is_history(UpdateState::start(content_length, invalid_version), inputs),
        run(UpdateState::start(content_length, invalid_version), inputs).action() == (
        UpdateAction::Write { len }),
    ensures
        ({
            let state = run(UpdateState::start(content_length, invalid_version), inputs);
            let action = state.next(UpdateEvent::Written, buffer).action();
            &&& state.accepts(UpdateEvent::Written, buffer)
            &&& last_read(inputs) >= len ==> action == UpdateAction::Read
            &&& last_read(inputs) < len ==> is_ending(action)
        }),
{
    lemma_history(content_length, invalid_version, inputs);
}

/// A read or a write that failed has the update end: nothing more is read or
/// written.
pub proof fn failure_ends_the_update(state: UpdateState, event: UpdateEvent, buffer: Seq<u8>)
    requires
        state.accepts(event, buffer),
        event is ReadFailed || event is WriteFailed,
    ensures
        is_ending(state.next(event, buffer).action()),
{
}

/// Once an update was completed, or could not be, or was given up, the device
/// restarts after 1000 milliseconds, and only then.
pub proof fn restarts_once_it_ended(state: UpdateState, event: UpdateEvent, buffer: Seq<u8>)
    requires
        state.accepts(event, buffer),
    ensures
        event is Completed || event is CompleteFailed || event is Aborted <==> state.next(
            event,
            buffer,
        ).action() == (UpdateAction::Restart { delay_ms: 1000 }),
        state.next(event, buffer).action() is Restart <==> state.next(event, buffer).action() == (
        UpdateAction::Restart { delay_ms: 1000 }),
{
}

/// An event can come exactly where it is what can come of the action: a read
/// succeeds or fails, a write too, an image loads, and an update is completed,
/// cannot be completed, or is given up. Of the bytes that are counted there are
/// never more than a `usize` can hold.
pub proof fn events_come_of_actions(state: UpdateState, event: UpdateEvent, buffer: Seq<u8>)
    ensures
        state.accepts(event, buffer) <==> match event {
            UpdateEvent::ReadFailed => state.action() == UpdateAction::Read,
            UpdateEvent::Read { data_read } => state.action() == UpdateAction::Read && (
            !state.image_header_was_checked && data_read > 288 || state.bytes_read_total
                + data_read <= usize::MAX),
            UpdateEvent::HeaderLoaded => state.action() == UpdateAction::LoadHeader
                && has_readable_info(buffer) && (state.invalid_version == Some(
                info_of(buffer).version,
            ) || state.bytes_read_total + state.phase->Checking_data_read <= usize::MAX),
            UpdateEvent::Written => state.action() is Write,
            UpdateEvent::WriteFailed => state.action() is Write,
            UpdateEvent::Completed => state.action() == UpdateAction::Complete,
            UpdateEvent::CompleteFailed => state.action() == UpdateAction::Complete,
            UpdateEvent::Aborted => state.action() == UpdateAction::Abort,
        },
{
}

/// An image of the version that it must not have, which its first read shows, is
/// never written and never completed, however long it is, unless its length is
/// unknown or 0: it is looked at, given up, and the device restarts.
pub proof fn invalid_image_is_never_written(
    content_length: nat,
    version: Seq<char>,
    inputs: Seq<UpdateInput>,
    data_read: usize,
    before: nat,
    after: nat,
)
    requires
        content_length > 0,
        version.len() > 0 ==> version.first() != '\0' && version.last() != '\0',
        is_history(UpdateState::start(content_length, Some(version)), inputs),
        inputs.len() > 0,
        inputs[0].event == (UpdateEvent::Read { data_read }),
        data_read > 288,
        inputs.len() > 1 ==> inputs[1].buffer.len() >= 288 && inputs[1].buffer.subrange(48, 80)
            == padded(before, version, after),
    ensures
        ({
            let action = run(UpdateState::start(content_length, Some(version)), inputs).action();
            &&& inputs.len() == 1 ==> action == UpdateAction::LoadHeader
            &&& inputs.len() == 2 ==> action == UpdateAction::Abort
            &&& inputs.len() == 3 ==> action == (UpdateAction::Restart { delay_ms: 1000 })
            &&& inputs.len() <= 3
        }),
    decreases inputs.len(),
{
    let start = UpdateState::start(content_length, Some(version));
    let earlier = inputs.drop_last();
    if inputs.len() == 1 {
        assert(run(start, earlier) == start);
    } else {
        assert(earlier[0] == inputs[0]);
        if earlier.len() > 1 {
            assert(earlier[1] == inputs[1]);
        }
        invalid_image_is_never_written(content_length, version, earlier, data_read, before, after);
        image_tells_its_version(inputs[1].buffer, version, before, after);
        lemma_history(content_length, Some(version), earlier);
        if inputs.len() == 2 {
            assert(earlier.drop_last() =~= Seq::<UpdateInput>::empty());
            assert(reads_total(earlier.drop_last()) == 0);
            assert(earlier.last() == inputs[0]);
            assert(inputs.last() == inputs[1]);
        }
    }
}

/// A `Content-Length` header can be read exactly where it is missing or writes
/// a number that a `usize` can hold.
pub proof fn missing_or_numeric_length_is_readable(text: &str)
    ensures
        is_length_readable(None),
        is_length_readable(Some(text)) <==> number_in(text.spec_bytes(), usize::MAX as nat)
            is Some,
{
}

/// A full buffer is 1024 bytes, which shows the image's descriptor, that ends at
/// byte 288.
pub proof fn full_buffer_shows_the_descriptor()
    ensures
        BUF_MAX == 1024,
        APP_DESC_END == 288,
{
}

} // verus!
