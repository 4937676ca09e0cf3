//! The network audio of a call, as far as it is decided rather than
//! streamed: whether it runs, the stations the recorded audio is sent to, and
//! how the recorded samples are cut into packets.
use vstd::prelude::*;
use vstd::string::StringExecFns;

use crate::text::view_strings;

verus! {

/// Frames of silence that the playback buffer starts with (150 ms at 48 kHz).
pub const TARGET_FILL_FRAMES: usize = 7200;

/// Samples that the playback buffer holds.
pub const BUFFER_CAPACITY: usize = 262144;

/// Samples that the recording buffer holds.
pub const RECORD_BUFFER_CAPACITY: usize = 65536;

/// The UDP port on which stations exchange audio.
pub const AUDIO_PORT: u16 = 5000;

/// Channels of the audio that stations exchange.
pub const INPUT_CHANNELS: usize = 2;

/// Samples of the silence that the playback buffer starts with.
pub fn initial_fill_samples(input_channels: usize) -> (r: usize)
    requires
        TARGET_FILL_FRAMES * input_channels <= usize::MAX,
    ensures
        r == TARGET_FILL_FRAMES * input_channels,
{
    TARGET_FILL_FRAMES * input_channels
}

/// Samples per packet sent: about 10 ms of recording, at least 128.
pub open spec fn spec_chunk_samples(sample_rate: u32, channels: u16) -> int {
    let n = sample_rate * channels / 100;
    if n < 128 {
        128
    } else {
        n
    }
}

/// Samples per packet for a recording at `sample_rate` Hz with `channels` channels.
pub fn chunk_samples(sample_rate: u32, channels: u16) -> (r: usize)
    requires
        sample_rate * channels / 100 <= usize::MAX,
    ensures
        r == spec_chunk_samples(sample_rate, channels),
{
    let rate: u64 = sample_rate as u64;
    let ch: u64 = channels as u64;
    assert(rate * ch <= 0xFFFF_FFFF * 0xFFFF) by (nonlinear_arith)
        requires
            rate <= 0xFFFF_FFFF,
            ch <= 0xFFFF,
    ;
    let product: u64 = rate * ch;
    let n: u64 = product / 100;
    if n < 128 {
        128
    } else {
        n as usize
    }
}

/// Whether the network audio runs and where the recorded audio goes.
pub struct NetAudioTargets {
    running: bool,
    send_target_ips: Vec<String>,
}

impl NetAudioTargets {
    #[verifier::type_invariant]
    spec fn inv(self) -> bool {
        view_strings(self.send_target_ips@).no_duplicates()
    }

    /// Whether audio is received and sent.
    pub closed spec fn runs(&self) -> bool {
        self.running
    }

    /// The addresses the recorded audio is sent to.
    pub closed spec fn targets(&self) -> Set<Seq<char>> {
        view_strings(self.send_target_ips@).to_set()
    }

    /// Stopped, with no target.
    pub fn new() -> (r: Self)
        ensures
            !r.runs(),
            r.targets() == Set::<Seq<char>>::empty(),
    {
        let r = NetAudioTargets { running: false, send_target_ips: Vec::new() };
        assert(view_strings(r.send_target_ips@).to_set() =~= Set::<Seq<char>>::empty());
        r
    }

    pub fn is_running(&self) -> (r: bool)
        ensures
            r == self.runs(),
    {
        self.running
    }

    /// Starts the audio and adds `target_ip` to the targets.
    pub fn start_net_audio(&mut self, target_ip: &str)
        ensures
            final(self).runs(),
            final(self).targets() == old(self).targets().insert(target_ip@),
    {
        proof {
            use_type_invariant(&*self);
        }
        let ghost old_view = view_strings(self.send_target_ips@);
        let ip = target_ip.to_owned();
        let mut i: usize = 0;
        while i < self.send_target_ips.len()
            invariant
                i <= self.send_target_ips@.len(),
                old_view == view_strings(self.send_target_ips@),
                old_view == view_strings(old(self).send_target_ips@),
                old_view.no_duplicates(),
                ip@ == target_ip@,
                forall|k: int| 0 <= k < i ==> (#[trigger] old_view[k]) != ip@,
            decreases self.send_target_ips@.len() - i,
        {
            if self.send_target_ips[i] == ip {
                proof {
                    assert(old_view[i as int] == ip@);
                    assert(old_view.to_set().insert(ip@) =~= old_view.to_set());
                }
                self.running = true;
                return;
            }
            i = i + 1;
        }
        let mut ips: Vec<String> = Vec::new();
        std::mem::swap(&mut ips, &mut self.send_target_ips);
        let ghost new_ip = ip@;
        ips.push(ip);
        proof {
            assert(view_strings(ips@) =~= old_view.push(new_ip));
            assert forall|a: int, b: int| 0 <= a < b < old_view.push(new_ip).len() implies old_view.push(new_ip)[a]
                != old_view.push(new_ip)[b] by {
                if b < old_view.len() {
                    assert(old_view.push(new_ip)[a] == old_view[a]);
                    assert(old_view.push(new_ip)[b] == old_view[b]);
                }
            }
            old_view.lemma_push_to_set_commute(new_ip);
        }
        self.send_target_ips = ips;
        self.running = true;
    }

    /// Stops the audio and forgets every target.
    pub fn pause_net_audio(&mut self)
        ensures
            !final(self).runs(),
            final(self).targets() == Set::<Seq<char>>::empty(),
    {
        self.send_target_ips = Vec::new();
        self.running = false;
        assert(view_strings(self.send_target_ips@).to_set() =~= Set::<Seq<char>>::empty());
    }

    /// The targets, each once.
    pub fn get_targets(&self) -> (r: Vec<String>)
        ensures
            view_strings(r@).to_set() == self.targets(),
            view_strings(r@).no_duplicates(),
    {
        proof {
            use_type_invariant(self);
        }
        let mut r: Vec<String> = Vec::new();
        let mut i: usize = 0;
        while i < self.send_target_ips.len()
            invariant
                i <= self.send_target_ips@.len(),
                r@.len() == i,
                forall|k: int| 0 <= k < i ==> (#[trigger] r@[k])@ == self.send_target_ips@[k]@,
            decreases self.send_target_ips@.len() - i,
        {
            r.push(self.send_target_ips[i].clone());
            i = i + 1;
        }
        assert(view_strings(r@) =~= view_strings(self.send_target_ips@));
        r
    }
}

} // verus!
