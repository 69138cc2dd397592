//! The open session and what each of its operations sends.
//!
//! An operation computes the transfers that carry it out, in the order in
//! which they are to be made, and makes none itself.

use crate::color::Color;
use crate::error::Error;
use crate::header::{
    header_bytes, is_header, lemma_header_layout, Header, KIND_CUSTOM_CONFIG, KIND_PRESET,
    KIND_READ_CONFIG,
};
use crate::limits::slot_in_range;
use crate::preset::Preset;
use crate::run::{aborts, lemma_replay, lemma_run_completes, replay};
use crate::usb::{
    views, Interface, Outcome, Request, Transfer, TransferView, CHUNK_COUNT, CHUNK_LEN,
};
use vstd::prelude::*;

verus! {

/// Mode code of custom slot 0; slot `n` has mode code `0x33 + n`.
pub const CUSTOM_MODE_BASE: u8 = 0x33;

/// How a session switches to a preset. Firmware revisions differ in what
/// they need; which one to use is for the caller to say.
#[derive(Clone, Copy, Debug, PartialEq, Eq, Structural)]
pub enum Variant {
    /// One control transfer with the preset's header.
    Direct,
    /// Two control transfers: one that selects custom slot 0, then the one
    /// with the preset's header.
    Primed,
}

impl Default for Variant {
    /// The primed variant: it does all that the direct one does, and is the
    /// one to take where nothing is known of the firmware.
    fn default() -> (variant: Variant)
        ensures
            variant == Variant::Primed,
    {
        Variant::Primed
    }
}

/// Chunk `i` of a profile: its bytes from `64 * i` up to `64 * i + 64`.
pub open spec fn chunk(data: Seq<u8>, i: int) -> Seq<u8> {
    data.subrange(64 * i, 64 * i + 64)
}

/// What switching to custom slot `slot` sends.
pub open spec fn custom_plan(slot: u8, brightness: u8) -> Seq<TransferView> {
    seq![
        TransferView::control(header_bytes(KIND_PRESET, (0x33 + slot) as u8, 0, brightness, 0)),
    ]
}

/// What switching to a preset sends.
pub open spec fn preset_plan(
    variant: Variant,
    preset: Preset,
    speed: u8,
    brightness: u8,
    color: Color,
) -> Seq<TransferView> {
    let direct = seq![
        TransferView::control(
            header_bytes(KIND_PRESET, preset.spec_code(), speed, brightness, color.spec_code()),
        ),
    ];
    match variant {
        Variant::Direct => direct,
        Variant::Primed => custom_plan(0, brightness) + direct,
    }
}

/// What uploading the profile `data` to custom slot `slot` sends: the header
/// that announces eight packets, then the eight chunks of `data` in order.
pub open spec fn upload_plan(slot: u8, data: Seq<u8>) -> Seq<TransferView> {
    seq![TransferView::control(header_bytes(KIND_CUSTOM_CONFIG, slot, 8, 0, 0))] + Seq::new(
        8,
        |i: int| TransferView::write(chunk(data, i)),
    )
}

/// What reading the profile of custom slot `slot` back sends: the header
/// that asks for eight packets, then eight reads of one chunk each.
pub open spec fn download_plan(slot: u8) -> Seq<TransferView> {
    seq![TransferView::control(header_bytes(KIND_READ_CONFIG, slot, 8, 0, 0))] + Seq::new(
        8,
        |i: int| TransferView::read(),
    )
}

/// What closing a session asks of the transport: both interfaces released,
/// then the kernel driver attached to both again.
pub open spec fn close_plan() -> Seq<Request> {
    seq![
        Request::Release(Interface::Zero),
        Request::Release(Interface::Three),
        Request::Attach(Interface::Zero),
        Request::Attach(Interface::Three),
    ]
}

/// The bytes that the interrupt writes of `plan` carry, one chunk after the
/// other in the order of the plan.
pub open spec fn written(plan: Seq<TransferView>) -> Seq<u8>
    decreases plan.len(),
{
    if plan.len() == 0 {
        Seq::empty()
    } else {
        let before = written(plan.drop_last());
        match plan.last() {
            TransferView::InterruptOut { chunk, .. } => before + chunk,
            _ => before,
        }
    }
}

/// The first `1 + k` transfers of an upload carry the first `64 * k` bytes
/// of the profile.
proof fn lemma_upload_prefix(slot: u8, data: Seq<u8>, k: int)
    requires
        data.len() == 512,
        0 <= k <= 8,
    ensures
        written(upload_plan(slot, data).take(1 + k)) == data.subrange(0, 64 * k),
    decreases k,
{
    let plan = upload_plan(slot, data);
    let head = plan.take(1 + k);
    if k == 0 {
        assert(head.drop_last() =~= Seq::<TransferView>::empty());
        assert(written(head.drop_last()) =~= Seq::<u8>::empty());
        assert(written(head) =~= data.subrange(0, 0));
    } else {
        lemma_upload_prefix(slot, data, k - 1);
        assert(head.drop_last() =~= plan.take(k));
        assert(head.last() == TransferView::write(chunk(data, k - 1)));
        assert(data.subrange(0, 64 * (k - 1)) + chunk(data, k - 1) =~= data.subrange(0, 64 * k));
    }
}

/// An upload sends its header and then exactly eight interrupt writes of
/// 64 bytes each. Write `i` carries the bytes of the profile from `64 * i`
/// up to `64 * i + 64`, so that the writes, in order, carry the profile
/// once, whole, with nothing twice and nothing left out.
pub proof fn lemma_upload_covers(slot: u8, data: Seq<u8>)
    requires
        data.len() == 512,
    ensures
        upload_plan(slot, data).len() == 9,
        upload_plan(slot, data)[0] == TransferView::control(
            header_bytes(KIND_CUSTOM_CONFIG, slot, 8, 0, 0),
        ),
        forall|i: int|
            0 <= i < 8 ==> #[trigger] upload_plan(slot, data)[1 + i] == (TransferView::InterruptOut {
                endpoint: 6,
                chunk: data.subrange(64 * i, 64 * i + 64),
                timeout_ms: 0,
            }),
        forall|i: int| 0 <= i < 8 ==> (#[trigger] chunk(data, i)).len() == 64,
        forall|i: int, j: int|
            0 <= i < 8 && 0 <= j < 64 ==> #[trigger] chunk(data, i)[j] == data[64 * i + j],
        written(upload_plan(slot, data)) == data,
{
    let plan = upload_plan(slot, data);
    lemma_upload_prefix(slot, data, 8);
    assert(plan.take(9) =~= plan);
    assert(data.subrange(0, 512) =~= data);
}

/// An upload in which the transport fails no transfer runs through: all
/// nine transfers are made, however many bytes each moved, and the
/// operation ends well.
pub proof fn lemma_upload_runs_through(slot: u8, data: Seq<u8>, outcomes: Seq<Outcome>)
    requires
        data.len() == 512,
        outcomes.len() >= 9,
        forall|k: int| 0 <= k < 9 ==> (#[trigger] outcomes[k]) is Moved,
    ensures
        replay(upload_plan(slot, data), outcomes).done == 9,
        replay(upload_plan(slot, data), outcomes).result() == Some(Ok::<(), Error>(())),
{
    let plan = upload_plan(slot, data);
    assert forall|k: int| 0 <= k < plan.len() implies !aborts(plan, outcomes, k) by {
        assert(outcomes[k] is Moved);
        if k > 0 {
            assert(plan[k] == TransferView::write(chunk(data, k - 1)));
        }
    }
    lemma_run_completes(plan, outcomes);
}

/// A download ends well only if the header went out and each of the eight
/// reads brought 64 bytes, 512 in all; and if they did, it ends well.
pub proof fn lemma_download_is_whole(slot: u8, outcomes: Seq<Outcome>)
    requires
        outcomes.len() >= 9,
    ensures
        replay(download_plan(slot), outcomes).result() == Some(Ok::<(), Error>(())) <==> outcomes[0]
            is Moved && forall|i: int| 1 <= i < 9 ==> #[trigger] outcomes[i] == Outcome::Moved(64),
{
    let plan = download_plan(slot);
    let run = replay(plan, outcomes);
    lemma_replay(plan, outcomes);
    assert forall|i: int| 1 <= i < 9 implies #[trigger] plan[i] == TransferView::read() by {}
    if outcomes[0] is Moved && forall|i: int|
        1 <= i < 9 ==> #[trigger] outcomes[i] == Outcome::Moved(64) {
        assert forall|k: int| 0 <= k < plan.len() implies !aborts(plan, outcomes, k) by {
            if k > 0 {
                assert(outcomes[k] == Outcome::Moved(64));
            }
        }
        lemma_run_completes(plan, outcomes);
    }
    if run.result() == Some(Ok::<(), Error>(())) {
        assert(!aborts(plan, outcomes, 0));
        assert forall|i: int| 1 <= i < 9 implies #[trigger] outcomes[i] == Outcome::Moved(64) by {
            assert(!aborts(plan, outcomes, i));
        }
    }
}

/// Switching to a preset sends the same bytes whenever it is asked for the
/// same thing: two plans made from the same arguments are equal, transfer
/// by transfer and byte by byte.
pub proof fn lemma_set_preset_repeats(
    first: Seq<Transfer>,
    second: Seq<Transfer>,
    variant: Variant,
    preset: Preset,
    speed: u8,
    brightness: u8,
    color: Color,
)
    requires
        views(first) == preset_plan(variant, preset, speed, brightness, color),
        views(second) == preset_plan(variant, preset, speed, brightness, color),
    ensures
        first.len() == second.len(),
        forall|i: int| 0 <= i < first.len() ==> (#[trigger] first[i])@ == second[i]@,
        forall|i: int| 0 <= i < first.len() ==> #[trigger] first[i] == second[i],
{
    assert(views(first).len() == first.len());
    assert(views(second).len() == second.len());
    assert forall|i: int| 0 <= i < first.len() implies (#[trigger] first[i])@ == second[i]@ by {
        assert(views(first)[i] == first[i]@);
        assert(views(second)[i] == second[i]@);
    }
    assert forall|i: int| 0 <= i < first.len() implies #[trigger] first[i] == second[i] by {
        Transfer::lemma_view_injective(first[i], second[i]);
    }
}

/// What switching to a preset sends: the one transfer with the preset's
/// header, and before it, in the primed variant, the very transfer that
/// switches to custom slot 0 at the same brightness.
pub proof fn lemma_preset_plan_shape(
    variant: Variant,
    preset: Preset,
    speed: u8,
    brightness: u8,
    color: Color,
)
    ensures
        ({
            let plan = preset_plan(variant, preset, speed, brightness, color);
            let header = header_bytes(
                KIND_PRESET,
                preset.spec_code(),
                speed,
                brightness,
                color.spec_code(),
            );
            &&& is_header(header)
            &&& plan.last() == TransferView::control(header)
            &&& variant == Variant::Direct ==> plan.len() == 1
            &&& variant == Variant::Primed ==> plan.len() == 2 && plan[0] == custom_plan(
                0,
                brightness,
            )[0]
            &&& preset_plan(Variant::Primed, preset, speed, brightness, color) == custom_plan(
                0,
                brightness,
            ) + preset_plan(Variant::Direct, preset, speed, brightness, color)
        }),
{
    lemma_header_layout(KIND_PRESET, preset.spec_code(), speed, brightness, color.spec_code());
}

/// Copies chunk `i` out of a profile.
fn chunk_of(data: &[u8; 512], i: usize) -> (out: [u8; 64])
    requires
        i < 8,
    ensures
        out@ == chunk(data@, i as int),
{
    let start: usize = i * CHUNK_LEN;
    let mut out: [u8; 64] = [0u8; 64];
    let mut j: usize = 0;
    while j < CHUNK_LEN
        invariant
            i < 8,
            start == 64 * i,
            j <= 64,
            forall|k: int| 0 <= k < j ==> out@[k] == data@[start + k],
        decreases 64 - j,
    {
        out[j] = data[start + j];
        j += 1;
    }
    assert(out@ =~= chunk(data@, i as int));
    out
}

/// A session with the keyboard: the device is open, both interfaces are
/// claimed and no kernel driver is bound to them.
#[derive(Debug)]
pub struct FusionKBD {
    variant: Variant,
}

impl View for FusionKBD {
    type V = Variant;

    /// All that tells one session from another: how it switches to a preset.
    closed spec fn view(&self) -> Variant {
        self.variant
    }
}

impl FusionKBD {
    /// The session that an acquisition ends in.
    pub(crate) fn opened(variant: Variant) -> (kbd: FusionKBD)
        ensures
            kbd@ == variant,
    {
        FusionKBD { variant }
    }

    /// How the session switches to a preset.
    pub fn variant(&self) -> (variant: Variant)
        ensures
            variant == self@,
    {
        self.variant
    }

    /// Switches the lighting to a built-in preset.
    pub fn set_preset(&self, preset: Preset, speed: u8, brightness: u8, color: Color) -> (plan: Vec<
        Transfer,
    >)
        ensures
            views(plan@) == preset_plan(self@, preset, speed, brightness, color),
    {
        let mut plan: Vec<Transfer> = Vec::new();
        match self.variant {
            Variant::Direct => {},
            Variant::Primed => {
                let priming = Header::new(KIND_PRESET, CUSTOM_MODE_BASE, 0, brightness, 0);
                plan.push(Transfer::control(&priming));
            },
        }
        let header = Header::new(KIND_PRESET, preset.code(), speed, brightness, color.code());
        plan.push(Transfer::control(&header));
        assert(views(plan@) =~= preset_plan(self@, preset, speed, brightness, color));
        plan
    }

    /// Uploads a custom profile to a slot. The lighting does not switch to
    /// it: that takes `set_custom`.
    pub fn upload_custom(&self, slot: u8, data: &[u8; 512]) -> (plan: Result<Vec<Transfer>, Error>)
        ensures
            match plan {
                Ok(plan) => slot < 5 && views(plan@) == upload_plan(slot, data@),
                Err(error) => slot >= 5 && error == Error::InvalidSlot,
            },
    {
        if !slot_in_range(slot) {
            return Err(Error::InvalidSlot);
        }
        let header = Header::new(KIND_CUSTOM_CONFIG, slot, 0x08, 0x00, 0x00);
        let mut plan: Vec<Transfer> = Vec::new();
        plan.push(Transfer::control(&header));
        let mut i: usize = 0;
        while i < CHUNK_COUNT
            invariant
                i <= 8,
                plan@.len() == 1 + i,
                views(plan@) =~= upload_plan(slot, data@).take(1 + i),
            decreases 8 - i,
        {
            let ghost before = plan@;
            plan.push(Transfer::write(chunk_of(data, i)));
            assert(views(plan@) =~= views(before).push(plan@[1 + i]@));
            i += 1;
        }
        assert(views(plan@) =~= upload_plan(slot, data@));
        Ok(plan)
    }

    /// Switches the lighting to the custom profile in a slot.
    pub fn set_custom(&self, slot: u8, brightness: u8) -> (plan: Result<Vec<Transfer>, Error>)
        ensures
            match plan {
                Ok(plan) => slot < 5 && views(plan@) == custom_plan(slot, brightness),
                Err(error) => slot >= 5 && error == Error::InvalidSlot,
            },
    {
        if !slot_in_range(slot) {
            return Err(Error::InvalidSlot);
        }
        // 0x33 to 0x37 are the modes of the custom slots
        let header = Header::new(KIND_PRESET, CUSTOM_MODE_BASE + slot, 0, brightness, 0);
        let mut plan: Vec<Transfer> = Vec::new();
        plan.push(Transfer::control(&header));
        assert(views(plan@) =~= custom_plan(slot, brightness));
        Ok(plan)
    }

    /// Reads the custom profile of a slot back.
    pub fn download_custom(&self, slot: u8) -> (plan: Result<Vec<Transfer>, Error>)
        ensures
            match plan {
                Ok(plan) => slot < 5 && views(plan@) == download_plan(slot),
                Err(error) => slot >= 5 && error == Error::InvalidSlot,
            },
    {
        if !slot_in_range(slot) {
            return Err(Error::InvalidSlot);
        }
        let header = Header::new(KIND_READ_CONFIG, slot, 0x08, 0x00, 0x00);
        let mut plan: Vec<Transfer> = Vec::new();
        plan.push(Transfer::control(&header));
        let mut i: usize = 0;
        while i < CHUNK_COUNT
            invariant
                i <= 8,
                plan@.len() == 1 + i,
                views(plan@) =~= download_plan(slot).take(1 + i),
            decreases 8 - i,
        {
            let ghost before = plan@;
            plan.push(Transfer::read());
            assert(views(plan@) =~= views(before).push(plan@[1 + i]@));
            i += 1;
        }
        assert(views(plan@) =~= download_plan(slot));
        Ok(plan)
    }

    /// Ends the session. Each of the calls is made whatever became of the
    /// ones before it, and a failure of any is of no account.
    pub fn close(self) -> (plan: [Request; 4])
        ensures
            plan@ == close_plan(),
    {
        let plan: [Request; 4] = [
            Request::Release(Interface::Zero),
            Request::Release(Interface::Three),
            Request::Attach(Interface::Zero),
            Request::Attach(Interface::Three),
        ];
        assert(plan@ =~= close_plan());
        plan
    }
}

} // verus!
