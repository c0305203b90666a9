use vstd::prelude::*;
use crate::formatting::{bytes_text, format_bytes};
use crate::text::{
    begins_with, chars_of, decimal, occurs_at, push_decimal, split_on, split_str, string_from,
};

verus! {

/// The status bar: key and memory totals, connection state, the last message, the
/// keyboard hints, whether refreshing is paused and the seconds since the last
/// refresh.
pub struct StatusView {
    pub total_keys: usize,
    pub total_memory: u64,
    pub connected: bool,
    pub error: Option<String>,
    pub last_refresh: Option<String>,
    pub mode_hint: String,
    pub paused: bool,
    pub seconds_since_refresh: u64,
}

/// A piece of the status line, drawn in the highlight color or not.
pub struct Segment {
    pub text: String,
    pub highlighted: bool,
}

/// The spec form of a list of segments.
pub open spec fn segments_view(v: Seq<Segment>) -> Seq<(Seq<char>, bool)> {
    v.map_values(|s: Segment| (s.text@, s.highlighted))
}

/// The keyboard hints shown at start.
pub open spec fn default_hint() -> Seq<char> {
    "Tab:nav | Enter:view | p:pause | Esc:back | q:quit"@
}

/// A plain segment.
pub open spec fn plain(t: Seq<char>) -> (Seq<char>, bool) {
    (t, false)
}

/// The hint pieces separated by " | ", each hint starting with "p:" highlighted;
/// `first` tells whether no hint precedes them.
pub open spec fn hint_segments(parts: Seq<Seq<char>>, first: bool) -> Seq<(Seq<char>, bool)>
    decreases parts.len(),
{
    if parts.len() == 0 {
        seq![]
    } else {
        (if first {
            seq![]
        } else {
            seq![plain(" | "@)]
        }) + seq![(parts[0], begins_with(parts[0], "p:"@))] + hint_segments(
            parts.drop_first(),
            false,
        )
    }
}

/// The status line: "Keys: N | Memory: M | Connected (or Disconnected) | ", then
/// "PAUSED | " while paused, then the hints; the key count, "PAUSED" and the pause
/// hint are highlighted while paused.
pub open spec fn status_line(
    total_keys: usize,
    total_memory: u64,
    connected: bool,
    paused: bool,
    hint: Seq<char>,
) -> Seq<(Seq<char>, bool)> {
    seq![
        plain("Keys: "@),
        (decimal(total_keys as nat), paused),
        plain(" | "@),
        plain("Memory: "@),
        plain(bytes_text(total_memory)),
        plain(" | "@),
        plain(if connected { "Connected"@ } else { "Disconnected"@ }),
        plain(" | "@),
    ] + (if paused {
        seq![("PAUSED"@, true), plain(" | "@)]
    } else {
        seq![]
    }) + (if paused {
        hint_segments(split_on(hint, " | "@), true)
    } else {
        seq![plain(hint)]
    })
}

/// The status line tells the connection state: its seventh piece reads
/// "Connected" when connected and "Disconnected" when not, and the two lines differ
/// in that piece alone.
pub proof fn lemma_status_tells_connection(
    total_keys: usize,
    total_memory: u64,
    paused: bool,
    hint: Seq<char>,
)
    ensures
        ({
            let on = status_line(total_keys, total_memory, true, paused, hint);
            let off = status_line(total_keys, total_memory, false, paused, hint);
            &&& on.len() == off.len()
            &&& on.len() > 6
            &&& on[6] == ("Connected"@, false)
            &&& off[6] == ("Disconnected"@, false)
            &&& forall|i: int| 0 <= i < on.len() && i != 6 ==> on[i] == off[i]
        }),
{
    reveal_strlit("Connected");
    reveal_strlit("Disconnected");
}

fn seg(text: &str, highlighted: bool) -> (r: Segment)
    ensures
        r.text@ == text@,
        r.highlighted == highlighted,
{
    Segment { text: String::from_str(text), highlighted }
}

impl StatusView {
    pub fn new() -> (r: Self)
        ensures
            r.total_keys == 0,
            r.total_memory == 0,
            !r.connected,
            r.error is None,
            r.last_refresh is None,
            r.mode_hint@ == default_hint(),
            !r.paused,
            r.seconds_since_refresh == 0,
    {
        StatusView {
            total_keys: 0,
            total_memory: 0,
            connected: false,
            error: None,
            last_refresh: None,
            mode_hint: String::from_str("Tab:nav | Enter:view | p:pause | Esc:back | q:quit"),
            paused: false,
            seconds_since_refresh: 0,
        }
    }

    /// Records the totals of a refresh and restarts the refresh clock.
    pub fn update_totals(&mut self, keys_count: usize, memory: u64, connected: bool)
        ensures
            final(self).total_keys == keys_count,
            final(self).total_memory == memory,
            final(self).connected == connected,
            final(self).seconds_since_refresh == 0,
            final(self).paused == old(self).paused,
            final(self).error == old(self).error,
            final(self).mode_hint == old(self).mode_hint,
            final(self).last_refresh == old(self).last_refresh,
    {
        self.total_keys = keys_count;
        self.total_memory = memory;
        self.connected = connected;
        self.seconds_since_refresh = 0;
    }

    pub fn set_paused(&mut self, paused: bool)
        ensures
            final(self).paused == paused,
            final(self).total_keys == old(self).total_keys,
            final(self).total_memory == old(self).total_memory,
            final(self).connected == old(self).connected,
            final(self).seconds_since_refresh == old(self).seconds_since_refresh,
            final(self).error == old(self).error,
            final(self).mode_hint == old(self).mode_hint,
            final(self).last_refresh == old(self).last_refresh,
    {
        self.paused = paused;
    }

    /// Counts one more second since the last refresh.
    pub fn increment_seconds(&mut self)
        requires
            old(self).seconds_since_refresh < u64::MAX,
        ensures
            final(self).seconds_since_refresh == old(self).seconds_since_refresh + 1,
            final(self).paused == old(self).paused,
            final(self).total_keys == old(self).total_keys,
            final(self).total_memory == old(self).total_memory,
            final(self).connected == old(self).connected,
            final(self).error == old(self).error,
            final(self).mode_hint == old(self).mode_hint,
            final(self).last_refresh == old(self).last_refresh,
    {
        self.seconds_since_refresh = self.seconds_since_refresh + 1;
    }

    /// Records a message for the user.
    pub fn set_message(&mut self, message: String)
        ensures
            final(self).error == Some(message),
            final(self).paused == old(self).paused,
            final(self).total_keys == old(self).total_keys,
            final(self).total_memory == old(self).total_memory,
            final(self).connected == old(self).connected,
            final(self).seconds_since_refresh == old(self).seconds_since_refresh,
            final(self).mode_hint == old(self).mode_hint,
            final(self).last_refresh == old(self).last_refresh,
    {
        self.error = Some(message);
    }

    /// The pieces of the status line, as `status_line` states them.
    pub fn segments(&self) -> (r: Vec<Segment>)
        ensures
            segments_view(r@) == status_line(
                self.total_keys,
                self.total_memory,
                self.connected,
                self.paused,
                self.mode_hint@,
            ),
    {
        let mut r: Vec<Segment> = Vec::new();
        r.push(seg("Keys: ", false));
        let mut count: Vec<char> = Vec::new();
        push_decimal(&mut count, self.total_keys as u128);
        r.push(Segment { text: string_from(&count), highlighted: self.paused });
        r.push(seg(" | ", false));
        r.push(seg("Memory: ", false));
        r.push(Segment { text: format_bytes(self.total_memory), highlighted: false });
        r.push(seg(" | ", false));
        r.push(seg(if self.connected { "Connected" } else { "Disconnected" }, false));
        r.push(seg(" | ", false));
        let ghost head = segments_view(r@);
        if self.paused {
            r.push(seg("PAUSED", true));
            r.push(seg(" | ", false));
        }
        let ghost middle = segments_view(r@);
        if self.paused {
            proof {
                reveal_strlit(" | ");
            }
            let parts = split_str(self.mode_hint.as_str(), " | ");
            let p_prefix = chars_of("p:");
            let ghost pv = split_on(self.mode_hint@, " | "@);
            let mut i: usize = 0;
            assert(pv.skip(0) =~= pv);
            while i < parts.len()
                invariant
                    i <= parts@.len(),
                    parts@.len() == pv.len(),
                    forall|k: int| 0 <= k < pv.len() ==> #[trigger] parts@[k]@ == pv[k],
                    p_prefix@ == "p:"@,
                    segments_view(r@) + hint_segments(pv.skip(i as int), i == 0) == middle
                        + hint_segments(pv, true),
                decreases parts.len() - i,
            {
                let ghost before = segments_view(r@);
                assert(parts@[i as int]@ == pv[i as int]);
                assert(pv.skip(i as int).drop_first() =~= pv.skip(i + 1));
                if i > 0 {
                    r.push(seg(" | ", false));
                }
                let part = chars_of(parts[i].as_str());
                let is_pause = occurs_at(&part, 0, &p_prefix);
                assert(part@.skip(0) =~= part@);
                r.push(Segment { text: string_from(&part), highlighted: is_pause });
                assert(segments_view(r@) =~= before + (if i == 0 {
                    seq![]
                } else {
                    seq![plain(" | "@)]
                }) + seq![(pv[i as int], begins_with(pv[i as int], "p:"@))]);
                i = i + 1;
            }
            assert(pv.skip(i as int) =~= Seq::<Seq<char>>::empty());
        } else {
            r.push(Segment { text: self.mode_hint.clone(), highlighted: false });
        }
        r
    }
}

impl Default for StatusView {
    fn default() -> (r: Self)
        ensures
            r.total_keys == 0,
            r.total_memory == 0,
            !r.connected,
            r.error is None,
            r.last_refresh is None,
            r.mode_hint@ == default_hint(),
            !r.paused,
            r.seconds_since_refresh == 0,
    {
        Self::new()
    }
}

} // verus!
