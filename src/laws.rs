//! Properties that hold across calls of the components.
use vstd::prelude::*;

use crate::error::SourceError;
use crate::format::{needs_renegotiation, output_pts, stamp_step, FormatState};
use crate::frame::VideoFormat;
use crate::lifecycle::Lifecycle;
use crate::settings::{PropertyId, PropertyValue, Settings};

verus! {

/// `outs` are the stamps given, in order, to frames captured at `ts`, where
/// `baselines[i]` is the clock's baseline before frame `i`: each frame went
/// through one stamping step, as `FormatState::timestamp`, `on_frame` and
/// `on_negotiated` ensure of every frame they emit.
pub open spec fn stamped_in_order(baselines: Seq<Option<u64>>, ts: Seq<u64>, outs: Seq<u64>) -> bool {
    &&& baselines.len() == ts.len() + 1
    &&& outs.len() == ts.len()
    &&& forall|i: int|
        0 <= i < ts.len() ==> #[trigger] stamp_step(baselines[i], ts[i], baselines[i + 1], outs[i])
}

/// `proposed` tells, in order, whether each frame of formats `fs` was proposed
/// to the consumer, where `negotiated[i]` is the negotiated format before frame
/// `i`: each frame was checked as `FormatState::on_frame` does, and emitted in
/// its own format once accepted.
pub open spec fn negotiated_in_order(
    negotiated: Seq<Option<VideoFormat>>,
    fs: Seq<VideoFormat>,
    proposed: Seq<bool>,
) -> bool {
    &&& negotiated.len() == fs.len() + 1
    &&& proposed.len() == fs.len()
    &&& forall|i: int|
        0 <= i < fs.len() ==> #[trigger] proposed[i] == needs_renegotiation(negotiated[i], fs[i])
            && negotiated[i + 1] == Some(fs[i])
}

pub open spec fn non_decreasing(ts: Seq<u64>) -> bool {
    forall|i: int, j: int| 0 <= i <= j < ts.len() ==> ts[i] <= ts[j]
}

/// In such a cycle the baseline is the first frame's capture time once
/// `k` frames were stamped, for every `k` from one on.
proof fn lemma_baseline_is_first(baselines: Seq<Option<u64>>, ts: Seq<u64>, outs: Seq<u64>, k: int)
    requires
        stamped_in_order(baselines, ts, outs),
        1 <= k <= ts.len(),
        baselines[0] is None || baselines[0] == Some(ts[0]),
    ensures
        baselines[k] == Some(ts[0]),
    decreases k,
{
    let j = k - 1;
    assert(stamp_step(baselines[j], ts[j], baselines[j + 1], outs[j]));
    if k > 1 {
        lemma_baseline_is_first(baselines, ts, outs, k - 1);
    }
}

/// A cycle whose clock starts unset, or set to the first frame's capture
/// time, stamps every frame against the first frame's capture time.
proof fn lemma_stamped_against_first(baselines: Seq<Option<u64>>, ts: Seq<u64>, outs: Seq<u64>)
    requires
        stamped_in_order(baselines, ts, outs),
        ts.len() > 0,
        baselines[0] is None || baselines[0] == Some(ts[0]),
    ensures
        forall|i: int| 0 <= i < ts.len() ==> #[trigger] outs[i] == output_pts(ts[0], ts[i]),
{
    assert forall|i: int| 0 <= i < ts.len() implies #[trigger] outs[i] == output_pts(
        ts[0],
        ts[i],
    ) by {
        assert(stamp_step(baselines[i], ts[i], baselines[i + 1], outs[i]));
        if i > 0 {
            lemma_baseline_is_first(baselines, ts, outs, i);
        }
    }
}

/// Within one start cycle, when the backend's capture times do not go back,
/// the first frame is stamped zero and the timestamps never decrease.
pub proof fn lemma_timestamps_zero_based_monotone(
    baselines: Seq<Option<u64>>,
    ts: Seq<u64>,
    outs: Seq<u64>,
)
    requires
        stamped_in_order(baselines, ts, outs),
        baselines[0] is None,
        non_decreasing(ts),
    ensures
        ts.len() > 0 ==> outs[0] == 0,
        non_decreasing(outs),
{
    if ts.len() > 0 {
        lemma_stamped_against_first(baselines, ts, outs);
    }
}

/// A new start cycle stamps its frames from zero whatever the earlier cycles
/// left behind: two elements with any histories, restarted and fed frames
/// captured at the same times, stamp them alike.
pub proof fn lemma_restart_is_zero_based(
    prev_a: FormatState,
    prev_b: FormatState,
    ts: Seq<u64>,
    baselines_a: Seq<Option<u64>>,
    outs_a: Seq<u64>,
    baselines_b: Seq<Option<u64>>,
    outs_b: Seq<u64>,
)
    requires
        baselines_a.len() > 0 && baselines_a[0] == prev_a.restarted().baseline,
        baselines_b.len() > 0 && baselines_b[0] == prev_b.restarted().baseline,
        stamped_in_order(baselines_a, ts, outs_a),
        stamped_in_order(baselines_b, ts, outs_b),
    ensures
        outs_a == outs_b,
        ts.len() > 0 ==> outs_a[0] == 0,
{
    if ts.len() > 0 {
        lemma_stamped_against_first(baselines_a, ts, outs_a);
        lemma_stamped_against_first(baselines_b, ts, outs_b);
        assert(outs_a =~= outs_b);
    }
}

/// A cycle whose baseline was set by the internal preroll, with the prerolled
/// frame emitted first, stamps as a cycle without preroll: from zero, and
/// never decreasing while the capture times do not go back.
pub proof fn lemma_prerolled_baseline_is_zero_based(
    baselines: Seq<Option<u64>>,
    ts: Seq<u64>,
    outs: Seq<u64>,
)
    requires
        stamped_in_order(baselines, ts, outs),
        ts.len() > 0,
        baselines[0] == Some(ts[0]),
    ensures
        outs[0] == 0,
        non_decreasing(ts) ==> non_decreasing(outs),
{
    lemma_stamped_against_first(baselines, ts, outs);
}

/// A frame is proposed to the consumer exactly when its format differs from
/// that of the frame before it (or, for the first, from the format already
/// negotiated); a frame in the current format is never proposed.
pub proof fn lemma_renegotiation_on_change_only(
    negotiated: Seq<Option<VideoFormat>>,
    fs: Seq<VideoFormat>,
    proposed: Seq<bool>,
)
    requires
        negotiated_in_order(negotiated, fs, proposed),
    ensures
        fs.len() > 0 ==> proposed[0] == (negotiated[0] != Some(fs[0])),
        forall|i: int| 0 < i < fs.len() ==> #[trigger] proposed[i] == (fs[i] != fs[i - 1]),
{
    assert forall|i: int| 0 < i < fs.len() implies #[trigger] proposed[i] == (fs[i] != fs[i - 1]) by {
        assert(proposed[i - 1] == needs_renegotiation(negotiated[i - 1], fs[i - 1]));
        assert(proposed[i] == needs_renegotiation(negotiated[i], fs[i]));
    }
    if fs.len() > 0 {
        assert(proposed[0] == needs_renegotiation(negotiated[0], fs[0]));
    }
}

/// A stop right after a stop finds no backend and reports it, and leaves the
/// state as the first stop did.
pub proof fn lemma_second_stop_reports_shutdown<B>(l: Lifecycle<B>)
    ensures
        l.stopped().stop_result() == Err::<B, SourceError>(SourceError::Shutdown),
        l.stopped().stopped() == l.stopped(),
{
}

/// A property reads back as the value last written to it, and a write
/// leaves the other properties as they were.
pub proof fn lemma_property_round_trip(
    s: Settings,
    id: PropertyId,
    value: PropertyValue,
    other: PropertyId,
)
    requires
        Settings::write_error(id, value) is None,
    ensures
        s.set_spec(id, value).get_spec(id) == value,
        other != id ==> s.set_spec(id, value).get_spec(other) == s.get_spec(other),
{
}

/// A new element reads `fps` as 25, `show-cursor` as true and
/// `perform-internal-preroll` as false.
pub proof fn lemma_property_defaults()
    ensures
        Settings::defaults().get_spec(PropertyId::Fps) == PropertyValue::UInt(25),
        Settings::defaults().get_spec(PropertyId::ShowCursor) == PropertyValue::Bool(true),
        Settings::defaults().get_spec(PropertyId::PerformInternalPreroll) == PropertyValue::Bool(
            false,
        ),
{
}

} // verus!
