use vstd::prelude::*;
use vstd::string::StringExecFns;

use crate::util::{decimal, push_decimal};

verus! {

/// A request to the recorder of the auxiliary cameras.
#[derive(Clone, Copy, Debug, PartialEq, Eq, Structural)]
pub enum SaveRequest {
    Start {},
    End {},
}

/// The answer of the recorder.
#[derive(Clone, Copy, Debug, PartialEq, Eq, Structural)]
pub enum SaveResponse {
    Unit,
}

/// The recording branch of the pipeline for camera number `i`: on a new
/// line, the camera's source, an H.264 encoder and an MPEG-TS muxer writing
/// to the file `{location}{i}.mp4`.
pub open spec fn save_branch(camera: Seq<char>, location: Seq<char>, i: nat) -> Seq<char> {
    "\n"@ + camera + " ! queue ! x264enc ! mpegtsmux ! filesink location="@ + location + decimal(i)
        + ".mp4"@
}

/// The GStreamer pipeline that records the given cameras: one branch per
/// camera, in order.
pub open spec fn save_pipeline(cameras: Seq<Seq<char>>, location: Seq<char>) -> Seq<char>
    decreases cameras.len(),
{
    if cameras.len() == 0 {
        Seq::empty()
    } else {
        save_pipeline(cameras.drop_last(), location) + save_branch(
            cameras.last(),
            location,
            (cameras.len() - 1) as nat,
        )
    }
}

/// The views of a list of strings.
pub open spec fn string_views(v: Seq<String>) -> Seq<Seq<char>> {
    v.map_values(|s: String| s@)
}

/// Describes the GStreamer pipeline that records each camera source to a
/// numbered file.
pub fn save_pipeline_description(cameras: &Vec<String>, location: &str) -> (r: String)
    ensures
        r@ == save_pipeline(string_views(cameras@), location@),
{
    let mut out = String::new();
    let mut i: usize = 0;
    while i < cameras.len()
        invariant
            i <= cameras@.len(),
            out@ == save_pipeline(string_views(cameras@).subrange(0, i as int), location@),
        decreases cameras@.len() - i,
    {
        let ghost before = out@;
        out.append("\n");
        out.append(cameras[i].as_str());
        out.append(" ! queue ! x264enc ! mpegtsmux ! filesink location=");
        out.append(location);
        push_decimal(&mut out, i as u64);
        out.append(".mp4");
        proof {
            let cams = string_views(cameras@);
            assert(cams.subrange(0, i + 1).drop_last() =~= cams.subrange(0, i as int));
            assert(cams.subrange(0, i + 1).last() == cameras@[i as int]@);
            assert(out@ =~= before + save_branch(cameras@[i as int]@, location@, i as nat));
        }
        i = i + 1;
    }
    proof {
        assert(string_views(cameras@).subrange(0, cameras@.len() as int) =~= string_views(
            cameras@,
        ));
    }
    out
}

} // verus!
