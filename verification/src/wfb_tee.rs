//! The radio's RTP copy of the encoded stream: its framing parameters, the
//! destination, and the check of whether a command emits it.
use crate::health::Nanos;
use crate::text;
use vstd::prelude::*;

verus! {

/// RTP payload type of the radio copy (H.264, dynamic).
pub const WFB_TEE_PAYLOAD_TYPE: u32 = 96;

/// RTP synchronisation source of the radio copy.
pub const WFB_TEE_SSRC: u32 = 0xCAFE;

/// How long a tap may go without reporting output before it counts as stuck.
pub const WFB_TEE_PROGRESS_TIMEOUT: Nanos = 15_000_000_000;

/// The radio ingress: RTP over loopback UDP in datagrams that survive alone.
pub open spec fn rtp_url() -> Seq<char> {
    "rtp://127.0.0.1:5600?pkt_size=1316"@
}

/// The radio ingress: RTP over loopback UDP in datagrams that survive alone.
pub fn rtp_destination_url() -> (r: String)
    ensures
        r@ == rtp_url(),
{
    "rtp://127.0.0.1:5600?pkt_size=1316".to_owned()
}

/// Some argument of `cmd` names the radio ingress.
pub open spec fn emits_wfb_rtp(cmd: Seq<Seq<char>>) -> bool {
    exists|i: int| 0 <= i < cmd.len() && text::holds(#[trigger] cmd[i], rtp_url())
}

/// The command emits the radio's RTP copy itself.
pub fn cmd_emits_wfb_rtp(cmd: &[String]) -> (r: bool)
    ensures
        r == emits_wfb_rtp(text::views(cmd@)),
{
    let url = rtp_destination_url();
    let ghost all = text::views(cmd@);
    let mut i: usize = 0;
    while i < cmd.len()
        invariant
            i <= cmd@.len(),
            url@ == rtp_url(),
            all == text::views(cmd@),
            forall|j: int| 0 <= j < i ==> !text::holds(#[trigger] all[j], rtp_url()),
        decreases cmd@.len() - i,
    {
        if text::contains(cmd[i].as_str(), url.as_str()) {
            assert(text::holds(all[i as int], rtp_url()));
            return true;
        }
        i += 1;
    }
    false
}

/// The arguments of the tap that copies the local stream at `rtsp_in` to the
/// radio ingress without encoding it again.
pub open spec fn tee_argv(rtsp_in: Seq<char>) -> Seq<Seq<char>> {
    seq![
        "-rtsp_transport"@,
        "tcp"@,
        "-i"@,
        rtsp_in,
        "-an"@,
        "-c:v"@,
        "copy"@,
        "-f"@,
        "rtp"@,
        "-payload_type"@,
        text::decimal(WFB_TEE_PAYLOAD_TYPE as nat),
        "-ssrc"@,
        text::decimal(WFB_TEE_SSRC as nat),
        rtp_url(),
    ]
}

/// The arguments of the radio tap.
pub fn wfb_tee_args(rtsp_in: &str) -> (r: Vec<String>)
    ensures
        text::views(r@) == tee_argv(rtsp_in@),
{
    let mut out: Vec<String> = Vec::new();
    assert(text::views(out@) =~= Seq::<Seq<char>>::empty());
    text::add_arg(&mut out, "-rtsp_transport");
    text::add_arg(&mut out, "tcp");
    text::add_arg(&mut out, "-i");
    text::add_arg(&mut out, rtsp_in);
    text::add_arg(&mut out, "-an");
    text::add_arg(&mut out, "-c:v");
    text::add_arg(&mut out, "copy");
    text::add_arg(&mut out, "-f");
    text::add_arg(&mut out, "rtp");
    text::add_arg(&mut out, "-payload_type");
    text::add_arg(&mut out, text::decimal_of(WFB_TEE_PAYLOAD_TYPE as u64).as_str());
    text::add_arg(&mut out, "-ssrc");
    text::add_arg(&mut out, text::decimal_of(WFB_TEE_SSRC as u64).as_str());
    text::add_arg(&mut out, rtp_destination_url().as_str());
    assert(text::views(out@) =~= tee_argv(rtsp_in@));
    out
}

/// The pattern that finds a stray process feeding the radio ingress.
pub fn orphan_pattern() -> (r: String)
    ensures
        r@ == rtp_url(),
{
    rtp_destination_url()
}

/// The tap has shown no output for longer than the timeout.
pub fn wfb_tee_progress_is_stale(last_progress: Nanos, now: Nanos) -> (r: bool)
    ensures
        r == (now - last_progress > WFB_TEE_PROGRESS_TIMEOUT),
{
    now > last_progress && now - last_progress > WFB_TEE_PROGRESS_TIMEOUT
}

/// The radio copy reads the local stream, copies it without encoding it, and
/// sends it as RTP with the link's payload type and source to the loopback
/// port of the radio.
pub proof fn law_the_radio_copy(rtsp_in: Seq<char>)
    ensures
        ({
            let a = tee_argv(rtsp_in);
            &&& a.len() == 14
            &&& a[2] == "-i"@ && a[3] == rtsp_in
            &&& a[0] == "-rtsp_transport"@ && a[1] == "tcp"@
            &&& a[4] == "-an"@
            &&& a[5] == "-c:v"@ && a[6] == "copy"@
            &&& a[7] == "-f"@ && a[8] == "rtp"@
            &&& a[9] == "-payload_type"@ && a[10] == text::decimal(96)
            &&& a[11] == "-ssrc"@ && a[12] == text::decimal(51966)
            &&& a.last() == "rtp://127.0.0.1:5600?pkt_size=1316"@
        }),
{
}

/// A command that has the radio ingress as an argument, or within one, emits to
/// the radio; one that mentions it nowhere does not.
pub proof fn law_what_emits_to_the_radio(cmd: Seq<Seq<char>>, i: int)
    ensures
        0 <= i < cmd.len() && text::holds(cmd[i], "rtp://127.0.0.1:5600?pkt_size=1316"@)
            ==> emits_wfb_rtp(cmd),
        (forall|k: int|
            0 <= k < cmd.len() ==> !text::holds(
                #[trigger] cmd[k],
                "rtp://127.0.0.1:5600?pkt_size=1316"@,
            )) ==> !emits_wfb_rtp(cmd),
{
}

} // verus!
