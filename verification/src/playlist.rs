use vstd::prelude::*;
use crate::model::Track;
use crate::text::{decimal, nat_digits, push_decimal, push_digits};

verus! {

/// The sum of the durations of `tracks`, in seconds.
pub open spec fn total_duration(tracks: Seq<Track>) -> int
    decreases tracks.len(),
{
    if tracks.len() == 0 {
        0
    } else {
        total_duration(tracks.drop_last()) + tracks.last().duration_sec
    }
}

/// `tracks` without those whose id is `id`, in their order.
pub open spec fn without_id(tracks: Seq<Track>, id: Seq<char>) -> Seq<Track>
    decreases tracks.len(),
{
    if tracks.len() == 0 {
        tracks
    } else if tracks.last().track_id@ != id {
        without_id(tracks.drop_last(), id).push(tracks.last())
    } else {
        without_id(tracks.drop_last(), id)
    }
}

/// The tracks of `tracks` whose id is `id`, in their order.
pub open spec fn with_id(tracks: Seq<Track>, id: Seq<char>) -> Seq<Track>
    decreases tracks.len(),
{
    if tracks.len() == 0 {
        tracks
    } else if tracks.last().track_id@ == id {
        with_id(tracks.drop_last(), id).push(tracks.last())
    } else {
        with_id(tracks.drop_last(), id)
    }
}

/// A value that an `i64` can hold.
pub open spec fn fits_i64(v: int) -> bool {
    i64::MIN <= v <= i64::MAX
}

pub(crate) proof fn lemma_total_push(tracks: Seq<Track>, t: Track)
    ensures
        total_duration(tracks.push(t)) == total_duration(tracks) + t.duration_sec,
{
    assert(tracks.push(t).drop_last() =~= tracks);
}

proof fn lemma_total_bounds(tracks: Seq<Track>)
    ensures
        tracks.len() * i64::MIN <= total_duration(tracks) <= tracks.len() * i64::MAX,
    decreases tracks.len(),
{
    if tracks.len() > 0 {
        lemma_total_bounds(tracks.drop_last());
    }
}

proof fn lemma_split_by_id(tracks: Seq<Track>, id: Seq<char>)
    ensures
        total_duration(tracks) == total_duration(without_id(tracks, id)) + total_duration(
            with_id(tracks, id),
        ),
        without_id(tracks, id).len() <= tracks.len(),
    decreases tracks.len(),
{
    if tracks.len() > 0 {
        let rest = tracks.drop_last();
        lemma_split_by_id(rest, id);
        lemma_total_push(without_id(rest, id), tracks.last());
        lemma_total_push(with_id(rest, id), tracks.last());
    }
}

/// After every track with id `id` is removed, none is left.
pub proof fn lemma_removed_id_gone(tracks: Seq<Track>, id: Seq<char>)
    ensures
        forall|i: int|
            0 <= i < without_id(tracks, id).len() ==> (#[trigger] without_id(tracks, id)[i]).track_id@
                != id,
    decreases tracks.len(),
{
    if tracks.len() > 0 {
        let rest = tracks.drop_last();
        lemma_removed_id_gone(rest, id);
        let r = without_id(rest, id);
        if tracks.last().track_id@ != id {
            assert forall|i: int| 0 <= i < r.push(tracks.last()).len() implies (#[trigger] r.push(
                tracks.last(),
            )[i]).track_id@ != id by {
                if i < r.len() {
                    assert(r.push(tracks.last())[i] == r[i]);
                }
            }
        }
    }
}

/// Removing an id that no track had leaves the tracks as they were.
pub proof fn lemma_remove_absent_id(tracks: Seq<Track>, id: Seq<char>)
    requires
        forall|i: int| 0 <= i < tracks.len() ==> (#[trigger] tracks[i]).track_id@ != id,
    ensures
        without_id(tracks, id) == tracks,
        with_id(tracks, id).len() == 0,
    decreases tracks.len(),
{
    if tracks.len() > 0 {
        let rest = tracks.drop_last();
        assert forall|i: int| 0 <= i < rest.len() implies (#[trigger] rest[i]).track_id@ != id by {
            assert(rest[i] == tracks[i]);
        }
        lemma_remove_absent_id(rest, id);
        assert(tracks.last() == tracks[tracks.len() - 1]);
        assert(rest.push(tracks.last()) =~= tracks);
    }
}

/// Removing a track that was just added, under an id that no other track
/// has, gives back the tracks and the total duration from before.
pub proof fn lemma_remove_undoes_add(tracks: Seq<Track>, t: Track)
    requires
        forall|i: int| 0 <= i < tracks.len() ==> (#[trigger] tracks[i]).track_id@ != t.track_id@,
    ensures
        without_id(tracks.push(t), t.track_id@) == tracks,
        total_duration(tracks.push(t)) - total_duration(with_id(tracks.push(t), t.track_id@))
            == total_duration(tracks),
{
    let id = t.track_id@;
    assert(tracks.push(t).drop_last() =~= tracks);
    lemma_remove_absent_id(tracks, id);
    lemma_total_push(tracks, t);
    assert(with_id(tracks.push(t), id) == with_id(tracks, id).push(t));
    lemma_total_push(with_id(tracks, id), t);
    assert(total_duration(with_id(tracks, id)) == 0);
}

/// The sum of the durations of `tracks`, or `None` where it does not fit an
/// `i64`.
pub fn sum_durations(tracks: &Vec<Track>) -> (total: Option<i64>)
    ensures
        total matches Some(t) ==> t == total_duration(tracks@),
        total is None <==> !fits_i64(total_duration(tracks@)),
{
    let mut acc: i128 = 0;
    let mut i: usize = 0;
    while i < tracks.len()
        invariant
            i <= tracks.len(),
            acc == total_duration(tracks@.take(i as int)),
            i * i64::MIN <= acc <= i * i64::MAX,
        decreases tracks.len() - i,
    {
        proof {
            assert(tracks@.take(i + 1).drop_last() =~= tracks@.take(i as int));
            assert(i < u64::MAX);
        }
        acc = acc + tracks[i].duration_sec as i128;
        i = i + 1;
    }
    proof {
        assert(tracks@.take(tracks.len() as int) =~= tracks@);
    }
    if acc < i64::MIN as i128 || acc > i64::MAX as i128 {
        None
    } else {
        Some(acc as i64)
    }
}

/// With no track of id `id` to remove, removing `id` leaves the tracks as
/// they are.
pub proof fn lemma_nothing_to_remove(tracks: Seq<Track>, id: Seq<char>)
    requires
        with_id(tracks, id).len() == 0,
    ensures
        without_id(tracks, id) == tracks,
    decreases tracks.len(),
{
    if tracks.len() > 0 {
        let rest = tracks.drop_last();
        if tracks.last().track_id@ == id {
            assert(with_id(tracks, id).len() == with_id(rest, id).len() + 1);
        }
        lemma_nothing_to_remove(rest, id);
        assert(rest.push(tracks.last()) =~= tracks);
    }
}

/// The playlist being built: its tracks and their total duration. The
/// duration is worked out from the tracks the first time it is read; from
/// then on only adding and removing tracks change it, so replacing the
/// tracks leaves it as it was.
#[derive(Debug)]
pub struct Playlist {
    pub tracks: Vec<Track>,
    /// The total duration in seconds, once it has been worked out.
    pub duration: Option<i64>,
}

impl Playlist {
    /// The duration as a read gives it: the one worked out, or else the
    /// total of the tracks.
    pub open spec fn duration_of(&self) -> int {
        match self.duration {
            Some(d) => d as int,
            None => total_duration(self.tracks@),
        }
    }

    /// The duration can be read: it was worked out, or the total of the
    /// tracks fits an `i64`.
    pub open spec fn duration_readable(&self) -> bool {
        self.duration is Some || fits_i64(total_duration(self.tracks@))
    }

    /// The duration is the total of the tracks.
    pub open spec fn duration_is_total(&self) -> bool {
        self.duration_of() == total_duration(self.tracks@)
    }

    /// An empty playlist whose duration has not been worked out.
    pub fn new() -> (p: Playlist)
        ensures
            p.tracks@.len() == 0,
            p.duration is None,
            p.duration_is_total(),
    {
        Playlist { tracks: Vec::new(), duration: None }
    }

    /// A playlist of the given tracks whose duration has not been worked
    /// out.
    pub fn from_tracks(tracks: Vec<Track>) -> (p: Playlist)
        ensures
            p.tracks@ == tracks@,
            p.duration is None,
            p.duration_is_total(),
    {
        Playlist { tracks, duration: None }
    }

    /// The duration, without keeping it.
    pub fn current_duration(&self) -> (d: i64)
        requires
            self.duration_readable(),
        ensures
            d == self.duration_of(),
    {
        match self.duration {
            Some(d) => d,
            None => sum_durations(&self.tracks).unwrap(),
        }
    }

    /// Reads the duration, working it out from the tracks where this is the
    /// first read; it is kept from then on.
    pub fn playlist_duration(&mut self) -> (d: i64)
        requires
            old(self).duration_readable(),
        ensures
            d == old(self).duration_of(),
            final(self).duration == Some(d),
            final(self).tracks@ == old(self).tracks@,
    {
        let d = self.current_duration();
        self.duration = Some(d);
        d
    }

    /// Replaces the tracks; the duration stays as it was.
    pub fn replace_tracks(&mut self, tracks: Vec<Track>)
        ensures
            final(self).tracks@ == tracks@,
            final(self).duration == old(self).duration,
    {
        self.tracks = tracks;
    }

    /// Appends a track and adds its duration to the playlist's.
    pub fn push_track(&mut self, track: Track)
        requires
            old(self).duration_readable(),
            fits_i64(old(self).duration_of() + track.duration_sec),
        ensures
            final(self).tracks@ == old(self).tracks@.push(track),
            final(self).duration == Some((old(self).duration_of() + track.duration_sec) as i64),
            old(self).duration_is_total() ==> final(self).duration_is_total(),
    {
        proof { lemma_total_push(self.tracks@, track); }
        let d = self.current_duration();
        self.duration = Some(d + track.duration_sec);
        self.tracks.push(track);
    }

    /// Removes every track whose id is `id`, keeping the others in order,
    /// and takes their durations off the playlist's. Where no track has that
    /// id the duration is not read.
    pub fn remove_track(&mut self, id: &str)
        requires
            with_id(old(self).tracks@, id@).len() > 0 ==> old(self).duration_readable() && fits_i64(
                old(self).duration_of() - total_duration(with_id(old(self).tracks@, id@)),
            ),
        ensures
            final(self).tracks@ == without_id(old(self).tracks@, id@),
            with_id(old(self).tracks@, id@).len() > 0 ==> final(self).duration == Some(
                (old(self).duration_of() - total_duration(with_id(old(self).tracks@, id@))) as i64,
            ),
            with_id(old(self).tracks@, id@).len() == 0 ==> final(self).duration == old(
                self,
            ).duration,
            old(self).duration_is_total() ==> final(self).duration_is_total(),
    {
        let target = String::from_str(id);
        let ghost old_tracks = self.tracks@;
        let mut kept: Vec<Track> = Vec::new();
        let mut removed: i128 = 0;
        let mut count: usize = 0;
        let mut i: usize = 0;
        let n = self.tracks.len();
        while i < n
            invariant
                n == self.tracks@.len(),
                self.tracks@ == old_tracks,
                self.duration == old(self).duration,
                old_tracks == old(self).tracks@,
                target@ == id@,
                i <= n,
                kept@ == without_id(old_tracks.take(i as int), id@),
                removed == total_duration(with_id(old_tracks.take(i as int), id@)),
                count == with_id(old_tracks.take(i as int), id@).len(),
                count <= i,
                count * i64::MIN <= removed <= count * i64::MAX,
            decreases n - i,
        {
            let ghost prefix = old_tracks.take(i as int);
            proof {
                assert(old_tracks.take(i + 1).drop_last() =~= prefix);
                assert(old_tracks.take(i + 1).last() == old_tracks[i as int]);
                assert(i < u64::MAX);
            }
            if self.tracks[i].track_id == target {
                proof { lemma_total_push(with_id(prefix, id@), old_tracks[i as int]); }
                removed = removed + self.tracks[i].duration_sec as i128;
                count = count + 1;
            } else {
                kept.push(self.tracks[i].clone());
            }
            i = i + 1;
        }
        proof {
            assert(old_tracks.take(n as int) =~= old_tracks);
            lemma_split_by_id(old_tracks, id@);
            if count == 0 {
                lemma_nothing_to_remove(old_tracks, id@);
            }
        }
        if count > 0 {
            let d = self.current_duration();
            self.duration = Some((d as i128 - removed) as i64);
        }
        self.tracks = kept;
    }

    /// The duration as the playlist footer shows it.
    pub fn duration_format(&self) -> (text: String)
        requires
            self.duration_readable(),
        ensures
            text@ == duration_text(self.duration_of()),
    {
        playlist_duration_format(self.current_duration())
    }
}

/// `v` with the sign of a negative number where `negative` holds.
pub open spec fn signed(negative: bool, v: int) -> int {
    if negative { -v } else { v }
}

/// The absolute value.
pub open spec fn abs(v: int) -> int {
    if v < 0 { -v } else { v }
}

/// The characters of ` hr `.
pub open spec fn hr_word() -> Seq<char> {
    seq![' ', 'h', 'r', ' ']
}

/// The characters of ` min`.
pub open spec fn min_word() -> Seq<char> {
    seq![' ', 'm', 'i', 'n']
}

/// The characters of ` sec`.
pub open spec fn sec_word() -> Seq<char> {
    seq![' ', 's', 'e', 'c']
}

/// A duration in seconds as the footer shows it. Under an hour:
/// `"<m> min <s> sec"`; from an hour on: `"<h> hr <m> min"`, where the hours
/// are taken modulo 60. Division and remainder truncate toward zero, as in
/// Rust, so a negative duration shows negative parts.
pub open spec fn duration_text(secs: int) -> Seq<char> {
    let neg = secs < 0;
    let mag = abs(secs);
    let hour = signed(neg, mag / 60 / 60 % 60);
    let min = signed(neg, mag / 60 % 60);
    let sec = signed(neg, mag % 60);
    if secs < 3600 {
        decimal(min) + min_word() + seq![' '] + decimal(sec) + sec_word()
    } else {
        decimal(hour) + hr_word() + decimal(min) + min_word()
    }
}

/// What the footer shows of a duration, in plain arithmetic: under an
/// hour (and not negative) the minutes and the seconds; from an hour on the
/// whole hours, taken modulo 60, and the minutes past the hour.
pub proof fn lemma_duration_text_parts(secs: int)
    ensures
        0 <= secs < 3600 ==> duration_text(secs) == decimal(secs / 60) + " min "@ + decimal(
            secs % 60,
        ) + " sec"@,
        3600 <= secs ==> duration_text(secs) == decimal(secs / 3600 % 60) + " hr "@ + decimal(
            secs / 60 % 60,
        ) + " min"@,
        3600 <= secs < 60 * 3600 ==> duration_text(secs) == decimal(secs / 3600) + " hr "@
            + decimal(secs / 60 % 60) + " min"@,
{
    reveal_strlit(" min ");
    reveal_strlit(" sec");
    reveal_strlit(" hr ");
    reveal_strlit(" min");
    if 0 <= secs {
        vstd::arithmetic::div_mod::lemma_div_denominator(secs, 60, 60);
        assert(secs / 60 / 60 == secs / 3600);
        if secs < 3600 {
            assert(secs / 60 < 60);
            assert(" min "@ =~= min_word() + seq![' ']);
            assert(duration_text(secs) =~= decimal(secs / 60) + " min "@ + decimal(secs % 60)
                + " sec"@);
        } else {
            assert(" hr "@ =~= hr_word());
            assert(" min"@ =~= min_word());
            assert(duration_text(secs) =~= decimal(secs / 3600 % 60) + " hr "@ + decimal(
                secs / 60 % 60,
            ) + " min"@);
            if secs < 60 * 3600 {
                assert(secs / 3600 < 60);
                assert(secs / 3600 % 60 == secs / 3600);
            }
        }
    }
}

/// Formats a playlist duration given in seconds; see `duration_text`.
pub fn playlist_duration_format(secs: i64) -> (text: String)
    ensures
        text@ == duration_text(secs as int),
        ({
            let s = secs as int;
            &&& 0 <= s < 3600 ==> text@ == decimal(s / 60) + " min "@ + decimal(s % 60) + " sec"@
            &&& 3600 <= s ==> text@ == decimal(s / 3600 % 60) + " hr "@ + decimal(s / 60 % 60)
                + " min"@
            &&& 3600 <= s < 60 * 3600 ==> text@ == decimal(s / 3600) + " hr "@ + decimal(
                s / 60 % 60,
            ) + " min"@
        }),
{
    proof { lemma_duration_text_parts(secs as int); }
    let neg = secs < 0;
    let wide: i128 = secs as i128;
    let mag: u64 = if neg { (0 - wide) as u64 } else { secs as u64 };
    let hour_mag: u64 = mag / 60 / 60 % 60;
    let min_mag: u64 = mag / 60 % 60;
    let sec_mag: u64 = mag % 60;
    let hour: i64 = if neg { 0 - (hour_mag as i64) } else { hour_mag as i64 };
    let min: i64 = if neg { 0 - (min_mag as i64) } else { min_mag as i64 };
    let sec: i64 = if neg { 0 - (sec_mag as i64) } else { sec_mag as i64 };
    let mut text = String::new();
    if secs < 3600 {
        push_decimal(&mut text, min);
        proof { reveal_strlit(" min "); }
        text.append(" min ");
        push_decimal(&mut text, sec);
        proof { reveal_strlit(" sec"); }
        text.append(" sec");
        proof {
            assert(" min "@ =~= min_word() + seq![' ']);
            assert(text@ =~= duration_text(secs as int));
        }
    } else {
        push_decimal(&mut text, hour);
        proof { reveal_strlit(" hr "); }
        text.append(" hr ");
        push_decimal(&mut text, min);
        proof { reveal_strlit(" min"); }
        text.append(" min");
        proof {
            assert(text@ =~= duration_text(secs as int));
        }
    }
    text
}

/// The characters of ` song`.
pub open spec fn song_word() -> Seq<char> {
    seq![' ', 's', 'o', 'n', 'g']
}

/// The footer line of the playlist: `"<count> song, <duration>"` for one
/// track, `"<count> songs, <duration>"` otherwise.
pub open spec fn track_count_line(count: nat, duration: Seq<char>) -> Seq<char> {
    nat_digits(count) + song_word() + (if count == 1 { seq![] } else { seq!['s'] }) + seq![
        ',',
        ' ',
    ] + duration
}

/// The footer line, read part by part: the count in decimal, then
/// ` song`, then an `s` exactly when the count is not 1, then `, ` and the
/// duration.
pub proof fn lemma_track_count_line_parts(count: nat, duration: Seq<char>)
    ensures
        ({
            let line = track_count_line(count, duration);
            let k = nat_digits(count).len() as int;
            let rest = if count == 1 { k + 5 } else { k + 6 };
            &&& line.subrange(0, k) == nat_digits(count)
            &&& line.subrange(k, k + 5) == " song"@
            &&& (count != 1 <==> line[k + 5] == 's')
            &&& line.subrange(rest, rest + 2) == ", "@
            &&& line.subrange(rest + 2, line.len() as int) == duration
            &&& line.len() == rest + 2 + duration.len()
        }),
{
    reveal_strlit(" song");
    reveal_strlit(", ");
    let line = track_count_line(count, duration);
    let k = nat_digits(count).len() as int;
    let rest = if count == 1 { k + 5 } else { k + 6 };
    assert(line.subrange(0, k) =~= nat_digits(count));
    assert(line.subrange(k, k + 5) =~= " song"@);
    assert(line.subrange(rest, rest + 2) =~= ", "@);
    assert(line.subrange(rest + 2, line.len() as int) =~= duration);
}

/// Formats the footer line of the playlist from the number of tracks and the
/// formatted duration.
pub fn track_count_text(count: usize, duration: &str) -> (text: String)
    ensures
        text@ == track_count_line(count as nat, duration@),
        ({
            let k = nat_digits(count as nat).len() as int;
            let rest = if count == 1 { k + 5 } else { k + 6 };
            &&& text@.subrange(0, k) == nat_digits(count as nat)
            &&& text@.subrange(k, k + 5) == " song"@
            &&& (count != 1 <==> text@[k + 5] == 's')
            &&& text@.subrange(rest, rest + 2) == ", "@
            &&& text@.subrange(rest + 2, text@.len() as int) == duration@
        }),
{
    proof { lemma_track_count_line_parts(count as nat, duration@); }
    let mut text = String::new();
    push_digits(&mut text, count as u64);
    proof { reveal_strlit(" song"); }
    text.append(" song");
    if count != 1 {
        proof { reveal_strlit("s"); }
        text.append("s");
    }
    proof { reveal_strlit(", "); }
    text.append(", ");
    text.append(duration);
    proof {
        assert(text@ =~= track_count_line(count as nat, duration@));
    }
    text
}

} // verus!
