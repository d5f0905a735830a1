use vstd::prelude::*;
use vstd::string::StringExecFns;

use super::save::string_views;
use crate::util::{decimal, push_decimal};

verus! {

/// A request to the streamer of the auxiliary cameras.
#[derive(Clone, Copy, Debug, PartialEq, Eq, Structural)]
pub enum StreamRequest {
    Start {},
    End {},
}

/// The answer of the streamer.
#[derive(Clone, Copy, Debug, PartialEq, Eq, Structural)]
pub enum StreamResponse {
    Unit,
}

/// The streaming branch of the pipeline for one camera: the camera's source,
/// a low-latency H.264 encoder and RTP payloader, sent over UDP to `host` at
/// `port`.
pub open spec fn stream_branch(camera: Seq<char>, host: Seq<char>, port: nat) -> Seq<char> {
    camera
        + " ! videoconvert ! x264enc tune=zerolatency bitrate=500 speed-preset=superfast ! rtph264pay ! udpsink host="@
        + host + " port="@ + decimal(port) + " "@
}

/// The GStreamer pipeline that streams the given cameras to consecutive
/// ports from `base_port` on, one branch per camera, in order.
pub open spec fn stream_pipeline(cameras: Seq<Seq<char>>, host: Seq<char>, base_port: nat) -> Seq<
    char,
>
    decreases cameras.len(),
{
    if cameras.len() == 0 {
        Seq::empty()
    } else {
        stream_pipeline(cameras.drop_last(), host, base_port) + stream_branch(
            cameras.last(),
            host,
            (base_port + cameras.len() - 1) as nat,
        )
    }
}

/// Describes the GStreamer pipeline that streams each camera source over UDP
/// to its own port. The ports must fit in 16 bits.
pub fn stream_pipeline_description(cameras: &Vec<String>, host: &str, base_port: u16) -> (r:
    String)
    requires
        base_port + cameras@.len() <= 65536,
    ensures
        r@ == stream_pipeline(string_views(cameras@), host@, base_port as nat),
{
    let mut out = String::new();
    let mut i: usize = 0;
    while i < cameras.len()
        invariant
            i <= cameras@.len(),
            base_port + cameras@.len() <= 65536,
            out@ == stream_pipeline(string_views(cameras@).subrange(0, i as int), host@, base_port as nat),
        decreases cameras@.len() - i,
    {
        let ghost before = out@;
        let port = base_port + i as u16;
        out.append(cameras[i].as_str());
        out.append(" ! videoconvert ! x264enc tune=zerolatency bitrate=500 speed-preset=superfast ! rtph264pay ! udpsink host=");
        out.append(host);
        out.append(" port=");
        push_decimal(&mut out, port as u64);
        out.append(" ");
        proof {
            let cams = string_views(cameras@);
            assert(cams.subrange(0, i + 1).drop_last() =~= cams.subrange(0, i as int));
            assert(cams.subrange(0, i + 1).last() == cameras@[i as int]@);
            assert(out@ =~= before + stream_branch(cameras@[i as int]@, host@, (base_port + i) as nat));
        }
        i = i + 1;
    }
    proof {
        assert(string_views(cameras@).subrange(0, cameras@.len() as int) =~= string_views(
            cameras@,
        ));
    }
    out
}

/// The fixed streaming pipeline of the first streaming setup: on the Raspberry
/// Pi, its camera to two ports of `host`; otherwise two test patterns and the
/// default video source to three ports.
pub open spec fn fixed_stream_pipeline(raspberry_pi: bool, host: Seq<char>) -> Seq<char> {
    if raspberry_pi {
        "rpicamsrc ! h264parse ! x264enc ! rtph264pay config-interval=1 pt=96 ! gdppay ! udpsink clients="@
            + host + ":5000,"@ + host + ":5001"@
    } else {
        "videotestsrc pattern=ball ! videoconvert ! x264enc tune=zerolatency bitrate=500 speed-preset=superfast ! rtph264pay ! udpsink host="@
            + host
            + " port=5000 videotestsrc ! videoconvert ! x264enc tune=zerolatency bitrate=500 speed-preset=superfast ! rtph264pay ! udpsink host="@
            + host
            + " port=5001 autovideosrc ! videoconvert ! x264enc tune=zerolatency bitrate=500 speed-preset=superfast ! rtph264pay ! udpsink host="@
            + host + " port=5002"@
    }
}

/// Describes the fixed streaming pipeline of the first streaming setup.
pub fn fixed_stream_pipeline_description(raspberry_pi: bool, host: &str) -> (r: String)
    ensures
        r@ == fixed_stream_pipeline(raspberry_pi, host@),
{
    let mut out = String::new();
    if raspberry_pi {
        out.append("rpicamsrc ! h264parse ! x264enc ! rtph264pay config-interval=1 pt=96 ! gdppay ! udpsink clients=");
        out.append(host);
        out.append(":5000,");
        out.append(host);
        out.append(":5001");
    } else {
        out.append("videotestsrc pattern=ball ! videoconvert ! x264enc tune=zerolatency bitrate=500 speed-preset=superfast ! rtph264pay ! udpsink host=");
        out.append(host);
        out.append(" port=5000 videotestsrc ! videoconvert ! x264enc tune=zerolatency bitrate=500 speed-preset=superfast ! rtph264pay ! udpsink host=");
        out.append(host);
        out.append(" port=5001 autovideosrc ! videoconvert ! x264enc tune=zerolatency bitrate=500 speed-preset=superfast ! rtph264pay ! udpsink host=");
        out.append(host);
        out.append(" port=5002");
    }
    proof {
        assert(out@ =~= fixed_stream_pipeline(raspberry_pi, host@));
    }
    out
}

} // verus!
