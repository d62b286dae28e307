//! The videos already watched, kept across runs.
use vstd::prelude::*;
use crate::text::{push_char};
use crate::api::video::Video;

verus! {

broadcast use vstd::string::group_string_axioms;

/// The strings held by a vector of strings.
pub open spec fn strings_view(v: Seq<String>) -> Seq<Seq<char>> {
    v.map_values(|s: String| s@)
}

/// The lines of `lines` that are neither in `seen` nor equal to an earlier
/// line, in order.
pub open spec fn new_lines(seen: Set<Seq<char>>, lines: Seq<Seq<char>>) -> Seq<Seq<char>>
    decreases lines.len(),
{
    if lines.len() == 0 {
        Seq::empty()
    } else {
        let prev = new_lines(seen, lines.drop_last());
        if seen.contains(lines.last()) || prev.contains(lines.last()) {
            prev
        } else {
            prev.push(lines.last())
        }
    }
}

/// The lines that `save` writes: the watched videos, most recent first,
/// each once, at most `max_len` of them (all of them when `max_len` is 0).
pub open spec fn saved_lines(order: Seq<Seq<char>>, max_len: nat) -> Seq<Seq<char>> {
    let d = new_lines(Set::empty(), order.reverse());
    if max_len == 0 || d.len() <= max_len {
        d
    } else {
        d.take(max_len as int)
    }
}

/// Each line followed by a line break.
pub open spec fn lines_text(lines: Seq<Seq<char>>) -> Seq<char>
    decreases lines.len(),
{
    if lines.len() == 0 {
        Seq::empty()
    } else {
        lines_text(lines.drop_last()) + lines.last() + seq!['\n']
    }
}

/// The history once the video `uuid` is recorded as watched: known from
/// then on, and put last in the order unless it was known.
pub open spec fn after_add(viewed: Set<Seq<char>>, order: Seq<Seq<char>>, uuid: Seq<char>) -> (Set<Seq<char>>, Seq<Seq<char>>) {
    (viewed.insert(uuid), if viewed.contains(uuid) {
        order
    } else {
        order.push(uuid)
    })
}

/// The watched videos: a set for lookups, and the order they were watched in.
pub struct History {
    videos: Vec<String>,
    order: Vec<String>,
}

impl History {
    /// The ids of the videos known as watched.
    pub closed spec fn viewed(&self) -> Set<Seq<char>> {
        strings_view(self.videos@).to_set()
    }

    /// The ids of the watched videos, oldest first.
    pub closed spec fn order(&self) -> Seq<Seq<char>> {
        strings_view(self.order@)
    }

    /// Each video is listed once, and every listed video is known as watched.
    pub open spec fn well_formed(&self) -> bool {
        &&& self.order().no_duplicates()
        &&& forall|i: int| 0 <= i < self.order().len() ==> self.viewed().contains(#[trigger] self.order()[i])
    }

    /// An empty history.
    pub fn new() -> (r: History)
        ensures
            r.viewed() == Set::<Seq<char>>::empty(),
            r.order() == Seq::<Seq<char>>::empty(),
            r.well_formed(),
    {
        let r = History { videos: Vec::new(), order: Vec::new() };
        assert(strings_view(r.videos@).to_set() =~= Set::<Seq<char>>::empty());
        assert(strings_view(r.order@) =~= Seq::<Seq<char>>::empty());
        r
    }

    /// Is `uuid` among the strings of `v`?
    fn holds(v: &Vec<String>, uuid: &str) -> (r: bool)
        ensures
            r == strings_view(v@).contains(uuid@),
    {
        let mut i: usize = 0;
        while i < v.len()
            invariant
                i <= v@.len(),
                forall|j: int| 0 <= j < i ==> strings_view(v@)[j] != uuid@,
            decreases v@.len() - i,
        {
            if crate::text::str_eq(v[i].as_str(), uuid) {
                assert(strings_view(v@)[i as int] == uuid@);
                return true;
            }
            i += 1;
        }
        false
    }

    /// Is the video `uuid` known as watched?
    pub fn has_viewed(&self, uuid: &str) -> (r: bool)
        ensures
            r == self.viewed().contains(uuid@),
    {
        let r = Self::holds(&self.videos, uuid);
        proof {
            if r {
                let i = choose|i: int| 0 <= i < strings_view(self.videos@).len() && strings_view(self.videos@)[i] == uuid@;
                assert(strings_view(self.videos@).contains(uuid@));
            }
        }
        r
    }

    /// Records that the video `uuid` was watched; a video already known keeps its place.
    pub fn add_video(&mut self, uuid: String)
        requires
            old(self).well_formed(),
        ensures
            final(self).well_formed(),
            (final(self).viewed(), final(self).order()) == after_add(old(self).viewed(), old(self).order(), uuid@),
    {
        if !Self::holds(&self.videos, uuid.as_str()) {
            let ghost before_v = strings_view(self.videos@);
            let ghost before_o = strings_view(self.order@);
            let copy = uuid.clone();
            self.videos.push(copy);
            self.order.push(uuid);
            proof {
                assert(strings_view(self.videos@) =~= before_v.push(uuid@));
                assert(strings_view(self.order@) =~= before_o.push(uuid@));
                assert(before_v.push(uuid@).to_set() =~= before_v.to_set().insert(uuid@)) by {
                    before_v.lemma_push_to_set_commute(uuid@);
                }
                assert(!before_o.contains(uuid@));
                assert forall|i: int| 0 <= i < self.order().len() implies self.viewed().contains(#[trigger] self.order()[i]) by {
                    if i < before_o.len() {
                        assert(self.order()[i] == before_o[i]);
                    }
                }
            }
        } else {
            proof {
                assert(old(self).viewed().insert(uuid@) =~= old(self).viewed());
            }
        }
    }

    /// Loads the lines of a history file: every line becomes known as watched;
    /// when the whole file was read (`complete`), the order becomes the new
    /// lines (those not known before, each once) from the last to the first.
    pub fn load_lines(&mut self, lines: Vec<String>, complete: bool)
        requires
            old(self).well_formed(),
        ensures
            final(self).well_formed(),
            final(self).viewed() == old(self).viewed() + strings_view(lines@).to_set(),
            complete ==> final(self).order() == new_lines(old(self).viewed(), strings_view(lines@)).reverse(),
            !complete ==> final(self).order() == old(self).order(),
    {
        let ghost seen0 = old(self).viewed();
        let ghost all = strings_view(lines@);
        let mut fresh: Vec<String> = Vec::new();
        let mut i: usize = 0;
        while i < lines.len()
            invariant
                i <= lines@.len(),
                all == strings_view(lines@),
                seen0 == old(self).viewed(),
                strings_view(self.videos@).to_set() == seen0 + all.take(i as int).to_set(),
                strings_view(fresh@) == new_lines(seen0, all.take(i as int)),
                self.order@ == old(self).order@,
            decreases lines@.len() - i,
        {
            let line = &lines[i];
            let ghost before_v = strings_view(self.videos@);
            let ghost before_f = strings_view(fresh@);
            proof {
                assert(all.take(i + 1).drop_last() =~= all.take(i as int));
                assert(all.take(i + 1).last() == line@);
                assert(all.take(i + 1).to_set() =~= all.take(i as int).to_set().insert(line@)) by {
                    all.take(i as int).lemma_push_to_set_commute(line@);
                    assert(all.take(i as int).push(line@) =~= all.take(i + 1));
                }
                lemma_new_lines_in(seen0, all.take(i as int), line@);
                lemma_new_lines_contains(seen0, all.take(i as int), line@);
                assert(strings_view(self.videos@).to_set().contains(line@) == strings_view(self.videos@).contains(line@));
                assert(all.take(i as int).to_set().contains(line@) == all.take(i as int).contains(line@));
            }
            if !Self::holds(&self.videos, line.as_str()) {
                self.videos.push(line.clone());
                fresh.push(line.clone());
                proof {
                    assert(strings_view(self.videos@) =~= before_v.push(line@));
                    assert(strings_view(fresh@) =~= before_f.push(line@));
                    before_v.lemma_push_to_set_commute(line@);
                }
            } else {
                proof {
                    assert((seen0 + all.take(i as int).to_set()).insert(line@) =~= seen0 + all.take(i as int).to_set());
                }
            }
            proof {
                assert(seen0 + all.take(i + 1).to_set() =~= (seen0 + all.take(i as int).to_set()).insert(line@));
            }
            i += 1;
        }
        proof {
            assert(all.take(lines@.len() as int) =~= all);
            lemma_new_lines_unique(seen0, all);
        }
        if complete {
            let mut order: Vec<String> = Vec::new();
            let mut k: usize = fresh.len();
            let ghost f = strings_view(fresh@);
            while k > 0
                invariant
                    k <= fresh@.len(),
                    f == strings_view(fresh@),
                    strings_view(order@) == f.reverse().take(fresh@.len() - k),
                decreases k,
            {
                k -= 1;
                let ghost before = strings_view(order@);
                order.push(fresh[k].clone());
                proof {
                    assert(strings_view(order@) =~= before.push(f[k as int]));
                    assert(f.reverse()[fresh@.len() - 1 - k] == f[k as int]);
                    assert(f.reverse().take(fresh@.len() - k).drop_last() =~= f.reverse().take(fresh@.len() - k - 1));
                    assert(strings_view(order@) =~= f.reverse().take(fresh@.len() - k));
                }
            }
            assert(f.reverse().take(f.len() as int) =~= f.reverse());
            self.order = order;
            proof {
                lemma_reverse_unique(f);
                assert forall|j: int| 0 <= j < self.order().len() implies self.viewed().contains(#[trigger] self.order()[j]) by {
                    let x = self.order()[j];
                    assert(x == f[f.len() - 1 - j]);
                    lemma_new_lines_from(seen0, all, f.len() - 1 - j);
                    let m = choose|m: int| 0 <= m < all.len() && all[m] == x;
                    assert(all.to_set().contains(x));
                }
            }
        } else {
            proof {
                assert forall|j: int| 0 <= j < self.order().len() implies self.viewed().contains(#[trigger] self.order()[j]) by {
                    assert(old(self).viewed().contains(self.order()[j]));
                }
            }
        }
    }

    /// The text that `save` writes, `saved_lines` each followed by a line break.
    pub fn save_text(&self, max_len: usize) -> (r: String)
        ensures
            r@ == lines_text(saved_lines(self.order(), max_len as nat)),
    {
        let ghost rev = self.order().reverse();
        assert(rev.take(rev.len() as int) =~= rev);
        assert(rev.take(0) =~= Seq::<Seq<char>>::empty());
        let mut already_in: Vec<String> = Vec::new();
        let mut full_str = String::new();
        let mut lines: usize = 0;
        let mut k: usize = self.order.len();
        while k > 0
            invariant_except_break
                k <= self.order@.len(),
                rev == self.order().reverse(),
                strings_view(already_in@) == new_lines(Set::empty(), rev.take(self.order@.len() - k)),
                lines == already_in@.len(),
                lines <= self.order@.len() - k,
                rev.take(rev.len() as int) == rev,
                rev.len() == self.order@.len(),
                self.order@.len() == self.order.len(),
                max_len == 0 || lines < max_len,
                full_str@ == lines_text(strings_view(already_in@)),
            ensures
                full_str@ == lines_text(saved_lines(self.order(), max_len as nat)),
            decreases k,
        {
            k -= 1;
            let uuid = &self.order[k];
            let ghost before = strings_view(already_in@);
            let ghost pre = rev.take(self.order@.len() - k - 1);
            proof {
                assert(rev.take(self.order@.len() - k).drop_last() =~= pre);
                assert(rev.take(self.order@.len() - k).last() == uuid@);
                lemma_new_lines_in(Set::empty(), pre, uuid@);
                lemma_new_lines_contains(Set::empty(), pre, uuid@);
            }
            if !Self::holds(&already_in, uuid.as_str()) {
                already_in.push(uuid.clone());
                full_str.append(uuid.as_str());
                push_char(&mut full_str, '\n');
                lines += 1;
                proof {
                    assert(strings_view(already_in@) =~= before.push(uuid@));
                    assert(lines_text(before.push(uuid@)).len() >= 0);
                    assert(before.push(uuid@).drop_last() =~= before);
                }
                if lines == max_len {
                    proof {
                        lemma_new_lines_prefix(Set::empty(), rev, self.order@.len() - k);
                        let d = new_lines(Set::empty(), rev);
                        assert(strings_view(already_in@) =~= d.subrange(0, lines as int));
                        if d.len() <= max_len {
                            assert(d.subrange(0, lines as int) =~= d);
                        } else {
                            assert(d.subrange(0, lines as int) =~= d.take(max_len as int));
                        }
                    }
                    break;
                }
            }
            proof {
                if k == 0 {
                    assert(rev.take(self.order@.len() as int) =~= rev);
                }
            }
        }
        full_str
    }
}

/// Every new line is a line of `lines`.
pub proof fn lemma_new_lines_from(seen: Set<Seq<char>>, lines: Seq<Seq<char>>, j: int)
    requires
        0 <= j < new_lines(seen, lines).len(),
    ensures
        lines.contains(new_lines(seen, lines)[j]),
        !seen.contains(new_lines(seen, lines)[j]),
    decreases lines.len(),
{
    if lines.len() > 0 {
        let prev = new_lines(seen, lines.drop_last());
        if j < prev.len() {
            lemma_new_lines_from(seen, lines.drop_last(), j);
            let m = choose|m: int| 0 <= m < lines.drop_last().len() && lines.drop_last()[m] == prev[j];
            assert(lines[m] == prev[j]);
        } else {
            assert(lines[lines.len() - 1] == lines.last());
        }
    }
}

/// A line not in `seen` is a new line exactly when it is a line, and the
/// new lines are no more than the lines.
pub proof fn lemma_new_lines_contains(seen: Set<Seq<char>>, lines: Seq<Seq<char>>, x: Seq<char>)
    ensures
        !seen.contains(x) ==> (new_lines(seen, lines).contains(x) <==> lines.contains(x)),
        seen.contains(x) ==> !new_lines(seen, lines).contains(x),
        new_lines(seen, lines).len() <= lines.len(),
    decreases lines.len(),
{
    if lines.len() > 0 {
        let dl = lines.drop_last();
        let last = lines.last();
        lemma_new_lines_contains(seen, dl, x);
        let prev = new_lines(seen, dl);
        assert(lines =~= dl.push(last));
        lemma_push_contains(dl, last, x);
        lemma_push_contains(prev, last, x);
    }
}

/// What `push` adds to `contains`.
pub proof fn lemma_push_contains<A>(s: Seq<A>, a: A, x: A)
    ensures
        s.push(a).contains(x) <==> (s.contains(x) || a == x),
{
    if s.contains(x) {
        let m = choose|m: int| 0 <= m < s.len() && s[m] == x;
        assert(s.push(a)[m] == x);
    }
    if a == x {
        assert(s.push(a)[s.len() as int] == x);
    }
    if s.push(a).contains(x) {
        let m = choose|m: int| 0 <= m < s.push(a).len() && s.push(a)[m] == x;
        if m < s.len() {
            assert(s[m] == x);
        }
    }
}

/// The new lines are distinct.
pub proof fn lemma_new_lines_unique(seen: Set<Seq<char>>, lines: Seq<Seq<char>>)
    ensures
        new_lines(seen, lines).no_duplicates(),
    decreases lines.len(),
{
    if lines.len() > 0 {
        lemma_new_lines_unique(seen, lines.drop_last());
    }
}

/// A line is a new line of `lines.push(x)` exactly when it is one of `lines`,
/// or it is `x` and `x` is neither seen nor a new line of `lines`.
pub proof fn lemma_new_lines_in(seen: Set<Seq<char>>, lines: Seq<Seq<char>>, x: Seq<char>)
    ensures
        new_lines(seen, lines.push(x)) == (if seen.contains(x) || new_lines(seen, lines).contains(x) {
            new_lines(seen, lines)
        } else {
            new_lines(seen, lines).push(x)
        }),
{
    assert(lines.push(x).drop_last() =~= lines);
}

/// The new lines of a prefix are a prefix of the new lines.
pub proof fn lemma_new_lines_prefix(seen: Set<Seq<char>>, lines: Seq<Seq<char>>, n: int)
    requires
        0 <= n <= lines.len(),
    ensures
        new_lines(seen, lines.take(n)).is_prefix_of(new_lines(seen, lines)),
    decreases lines.len() - n,
{
    if n < lines.len() {
        lemma_new_lines_prefix(seen, lines, n + 1);
        assert(lines.take(n + 1).drop_last() =~= lines.take(n));
    } else {
        assert(lines.take(n) =~= lines);
    }
}

/// A sequence without duplicates stays so when reversed.
pub proof fn lemma_reverse_unique<A>(s: Seq<A>)
    requires
        s.no_duplicates(),
    ensures
        s.reverse().no_duplicates(),
{
    assert forall|i: int, j: int| 0 <= i < s.reverse().len() && 0 <= j < s.reverse().len() && i != j implies s.reverse()[i] != s.reverse()[j] by {
        assert(s.reverse()[i] == s[s.len() - 1 - i]);
        assert(s.reverse()[j] == s[s.len() - 1 - j]);
    }
}

/// Distinct lines are all new to an empty history.
pub proof fn lemma_new_lines_distinct(s: Seq<Seq<char>>)
    requires
        s.no_duplicates(),
    ensures
        new_lines(Set::empty(), s) == s,
    decreases s.len(),
{
    if s.len() > 0 {
        let dl = s.drop_last();
        assert(dl.no_duplicates());
        lemma_new_lines_distinct(dl);
        assert(!dl.contains(s.last())) by {
            if dl.contains(s.last()) {
                let m = choose|m: int| 0 <= m < dl.len() && dl[m] == s.last();
                assert(s[m] == s[s.len() - 1]);
            }
        }
        assert(dl.push(s.last()) =~= s);
    }
}

/// Loading, into an empty history, the lines that `save_text` writes gives
/// back the `max_len` most recent videos (all of them when `max_len` is 0),
/// oldest first.
pub proof fn lemma_save_then_load(order: Seq<Seq<char>>, max_len: nat)
    requires
        order.no_duplicates(),
    ensures
        new_lines(Set::empty(), saved_lines(order, max_len)).reverse() == (if max_len == 0
            || order.len() <= max_len {
            order
        } else {
            order.skip(order.len() - max_len)
        }),
        new_lines(Set::empty(), saved_lines(order, max_len)).reverse().to_set() == saved_lines(order, max_len).to_set(),
        saved_lines(new_lines(Set::empty(), saved_lines(order, max_len)).reverse(), 0) == saved_lines(order, max_len),
{
    lemma_saved_lines_distinct(order, max_len);
    let lines = saved_lines(order, max_len);
    lemma_new_lines_distinct(lines);
    assert(lines.reverse().reverse() =~= lines);
    lemma_reverse_unique(lines);
    assert forall|x: Seq<char>| lines.reverse().to_set().contains(x) <==> lines.to_set().contains(x) by {
        if lines.contains(x) {
            let i = choose|i: int| 0 <= i < lines.len() && lines[i] == x;
            assert(lines.reverse()[lines.len() - 1 - i] == x);
        }
        if lines.reverse().contains(x) {
            let i = choose|i: int| 0 <= i < lines.reverse().len() && lines.reverse()[i] == x;
            assert(lines[lines.len() - 1 - i] == x);
        }
    }
    assert(lines.reverse().to_set() =~= lines.to_set());
    lemma_save_then_load_order(order, max_len);
}

/// The lines that `save_text` writes name each video once.
proof fn lemma_saved_lines_distinct(order: Seq<Seq<char>>, max_len: nat)
    requires
        order.no_duplicates(),
    ensures
        saved_lines(order, max_len).no_duplicates(),
        saved_lines(order, 0) == order.reverse(),
{
    lemma_reverse_unique(order);
    lemma_new_lines_distinct(order.reverse());
    let d = order.reverse();
    if !(max_len == 0 || d.len() <= max_len) {
        assert forall|i: int, j: int| 0 <= i < d.take(max_len as int).len() && 0 <= j < d.take(max_len as int).len() && i != j
            implies d.take(max_len as int)[i] != d.take(max_len as int)[j] by {
            assert(d.take(max_len as int)[i] == d[i]);
            assert(d.take(max_len as int)[j] == d[j]);
        }
    }
}

/// The order of the videos that loading the saved lines gives.
proof fn lemma_save_then_load_order(order: Seq<Seq<char>>, max_len: nat)
    requires
        order.no_duplicates(),
    ensures
        new_lines(Set::empty(), saved_lines(order, max_len)).reverse() == (if max_len == 0
            || order.len() <= max_len {
            order
        } else {
            order.skip(order.len() - max_len)
        }),
{
    let rev = order.reverse();
    lemma_reverse_unique(order);
    lemma_new_lines_distinct(rev);
    assert(rev.reverse() =~= order);
    if max_len == 0 || order.len() <= max_len {
    } else {
        let t = rev.take(max_len as int);
        assert(t.no_duplicates());
        lemma_new_lines_distinct(t);
        assert(t.reverse() =~= order.skip(order.len() - max_len));
    }
}

/// Something that knows which items were watched.
pub trait HistoryT<D: ?Sized> {
    /// Was `item` watched?
    fn is_viewed(&self, item: &D) -> bool;
}

impl HistoryT<str> for History {
    fn is_viewed(&self, uuid: &str) -> (r: bool)
        ensures
            r == self.viewed().contains(uuid@),
    {
        self.has_viewed(uuid)
    }
}

impl HistoryT<Video> for History {
    fn is_viewed(&self, video: &Video) -> (r: bool)
        ensures
            r == self.viewed().contains(video@.uuid),
    {
        self.has_viewed(video.uuid())
    }
}

impl<T: ?Sized> HistoryT<T> for () {
    fn is_viewed(&self, _item: &T) -> (r: bool)
        ensures
            !r,
    {
        false
    }
}

/// Recording a video that was just recorded changes nothing.
pub proof fn lemma_add_video_twice(viewed: Set<Seq<char>>, order: Seq<Seq<char>>, uuid: Seq<char>)
    ensures
        after_add(after_add(viewed, order, uuid).0, after_add(viewed, order, uuid).1, uuid) == after_add(
            viewed,
            order,
            uuid,
        ),
{
    assert(viewed.insert(uuid).insert(uuid) =~= viewed.insert(uuid));
}


/// Recording a video and saving the whole history writes each watched video
/// once, newest first: the video recorded comes first unless it was known,
/// when nothing changes; and the lines written are the videos known.
pub proof fn lemma_add_then_save(viewed: Set<Seq<char>>, order: Seq<Seq<char>>, uuid: Seq<char>)
    requires
        order.no_duplicates(),
        viewed == order.to_set(),
    ensures
        after_add(viewed, order, uuid).1.no_duplicates(),
        after_add(viewed, order, uuid).0 == after_add(viewed, order, uuid).1.to_set(),
        saved_lines(after_add(viewed, order, uuid).1, 0) == (if viewed.contains(uuid) {
            saved_lines(order, 0)
        } else {
            seq![uuid] + saved_lines(order, 0)
        }),
        saved_lines(after_add(viewed, order, uuid).1, 0).to_set() == after_add(viewed, order, uuid).0,
{
    let o2 = after_add(viewed, order, uuid).1;
    let v2 = after_add(viewed, order, uuid).0;
    if !viewed.contains(uuid) {
        assert(!order.contains(uuid));
        assert forall|i: int, j: int| 0 <= i < o2.len() && 0 <= j < o2.len() && i != j implies o2[i] != o2[j] by {
            if i < order.len() && j < order.len() {
            } else if i == order.len() {
                assert(o2[j] == order[j]);
            } else {
                assert(o2[i] == order[i]);
            }
        }
        assert(o2.reverse() =~= seq![uuid] + order.reverse());
        assert(v2 =~= o2.to_set()) by {
            assert forall|x: Seq<char>| v2.contains(x) <==> o2.to_set().contains(x) by {
                if order.contains(x) {
                    let i = choose|i: int| 0 <= i < order.len() && order[i] == x;
                    assert(o2[i] == x);
                }
                if x == uuid {
                    assert(o2[order.len() as int] == x);
                }
                if o2.contains(x) {
                    let i = choose|i: int| 0 <= i < o2.len() && o2[i] == x;
                    if i < order.len() {
                        assert(order[i] == x);
                    }
                }
            }
        }
    } else {
        assert(v2 =~= viewed);
    }
    lemma_saved_lines_distinct(order, 0);
    lemma_saved_lines_distinct(o2, 0);
    assert forall|x: Seq<char>| o2.reverse().to_set().contains(x) <==> o2.to_set().contains(x) by {
        if o2.contains(x) {
            let i = choose|i: int| 0 <= i < o2.len() && o2[i] == x;
            assert(o2.reverse()[o2.len() - 1 - i] == x);
        }
        if o2.reverse().contains(x) {
            let i = choose|i: int| 0 <= i < o2.reverse().len() && o2.reverse()[i] == x;
            assert(o2[o2.len() - 1 - i] == x);
        }
    }
    assert(o2.reverse().to_set() =~= o2.to_set());
}

} // verus!
