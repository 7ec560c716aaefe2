//! Global post filter.
//!
//! Imageboards tag their posts; the blacklist removes from the download queue
//! every post that carries an unwanted tag. Tags can be blacklisted for all
//! imageboards (the `global` section of the configuration) or for one
//! imageboard (a section named after it). The filter also keeps only the
//! selected ratings, only one file extension if one is forced, and can drop
//! animated posts.
use vstd::prelude::*;

use ahash::AHashSet;

use crate::hashing::{tag_set_contains, tag_set_contents, tag_set_extend, tag_set_is_empty, tag_set_new};
use crate::post::{
    board_name, extension_is_video, posts_view, rating_rank, Extension, ImageBoards, Post,
    PostView, Rating, TagType, TagView,
};
use crate::text::{clone_strings, lower_seq, str_eq, strings_view, to_lower_ascii};

verus! {

/// One section of the blacklist configuration: the tags blacklisted for the
/// imageboard that `name` names, or for all of them when `name` is `global`.
pub struct BlacklistEntry {
    pub name: String,
    pub tags: Vec<String>,
}

/// The blacklist configuration: its sections, in the order they were read.
pub struct GlobalBlacklist {
    blacklist: Vec<BlacklistEntry>,
}

/// The tags of the last section named `name` among `entries`, if any.
pub open spec fn section_tags(entries: Seq<(Seq<char>, Seq<Seq<char>>)>, name: Seq<char>) -> Option<
    Seq<Seq<char>>,
>
    decreases entries.len(),
{
    if entries.len() == 0 {
        None
    } else if entries.last().0 == name {
        Some(entries.last().1)
    } else {
        section_tags(entries.drop_last(), name)
    }
}

/// A section's tags, or none.
pub open spec fn tags_or_none(t: Option<Seq<Seq<char>>>) -> Set<Seq<char>> {
    match t {
        Some(s) => s.to_set(),
        None => Set::empty(),
    }
}

impl GlobalBlacklist {
    /// The sections as (name, tags) pairs.
    pub closed spec fn sections(&self) -> Seq<(Seq<char>, Seq<Seq<char>>)> {
        self.blacklist@.map_values(|e: BlacklistEntry| (e.name@, strings_view(e.tags@)))
    }

    /// The tags blacklisted under `name`; a later section of the same name
    /// replaces an earlier one.
    pub open spec fn spec_get(&self, name: Seq<char>) -> Option<Seq<Seq<char>>> {
        section_tags(self.sections(), name)
    }

    /// A configuration made of the given sections.
    pub fn from_entries(entries: Vec<BlacklistEntry>) -> (r: Self)
        ensures
            r.sections() == entries@.map_values(
                |e: BlacklistEntry| (e.name@, strings_view(e.tags@)),
            ),
    {
        GlobalBlacklist { blacklist: entries }
    }

    /// A copy of the configuration.
    pub fn duplicate(&self) -> (r: Self)
        ensures
            r.sections() == self.sections(),
    {
        let mut out: Vec<BlacklistEntry> = Vec::new();
        let n = self.blacklist.len();
        for i in 0..n
            invariant
                n == self.blacklist.len(),
                out@.len() == i,
                forall|j: int|
                    0 <= j < i ==> (#[trigger] out@[j]).name@ == self.blacklist@[j].name@
                        && strings_view(out@[j].tags@) == strings_view(self.blacklist@[j].tags@),
        {
            let e = &self.blacklist[i];
            out.push(BlacklistEntry { name: e.name.clone(), tags: clone_strings(e.tags.as_slice()) });
        }
        let r = GlobalBlacklist { blacklist: out };
        assert(r.sections() =~= self.sections());
        r
    }

    /// The tags blacklisted under `name`, if a section has that name.
    pub fn get(&self, name: &str) -> (r: Option<&Vec<String>>)
        ensures
            match r {
                Some(t) => self.spec_get(name@) == Some(strings_view(t@)),
                None => self.spec_get(name@) is None,
            },
    {
        let n = self.blacklist.len();
        let mut i = n;
        assert(self.sections().take(n as int) =~= self.sections());
        while i > 0
            invariant
                n == self.blacklist.len(),
                0 <= i <= n,
                section_tags(self.sections(), name@) == section_tags(
                    self.sections().take(i as int),
                    name@,
                ),
            decreases i,
        {
            let e = &self.blacklist[i - 1];
            let ghost s = self.sections().take(i as int);
            assert(s.last() == (e.name@, strings_view(e.tags@)));
            assert(s.drop_last() =~= self.sections().take(i - 1));
            if str_eq(e.name.as_str(), name) {
                return Some(&e.tags);
            }
            i -= 1;
        }
        assert(self.sections().take(0) =~= Seq::<(Seq<char>, Seq<Seq<char>>)>::empty());
        None
    }
}

/// A filter for posts by blacklisted tags, selected ratings, a forced file
/// extension and animation.
pub struct BlacklistFilter {
    gbl_tags: AHashSet<String>,
    selected_ratings: Vec<Rating>,
    tag_blacklisting_disabled: bool,
    ignore_animated: bool,
    extension: Option<Extension>,
}

/// Whether one of the post's tags is in `tags`.
pub open spec fn has_blocked_tag(p: PostView, tags: Set<Seq<char>>) -> bool {
    exists|i: int| 0 <= i < p.tags.len() && tags.contains(#[trigger] p.tags[i].text)
}

/// The meta tag that marks animated posts.
pub open spec fn animated_tag() -> TagView {
    TagView { text: "animated"@, kind: TagType::Meta }
}

/// Whether the post is animated: tagged so, or of a video format.
pub open spec fn is_animated(p: PostView) -> bool {
    p.tags.contains(animated_tag()) || extension_is_video(p.extension)
}

pub open spec fn ext_is(e: Extension) -> spec_fn(PostView) -> bool {
    |p: PostView| p.extension == e
}

pub open spec fn rating_in(rs: Seq<Rating>) -> spec_fn(PostView) -> bool {
    |p: PostView| rs.contains(p.rating)
}

pub open spec fn no_blocked_tag(tags: Set<Seq<char>>) -> spec_fn(PostView) -> bool {
    |p: PostView| !has_blocked_tag(p, tags)
}

pub open spec fn not_animated() -> spec_fn(PostView) -> bool {
    |p: PostView| !is_animated(p)
}

/// Ratings in ascending order of rank.
pub open spec fn ratings_sorted(s: Seq<Rating>) -> bool {
    forall|i: int, j: int| 0 <= i < j < s.len() ==> rating_rank(s[i]) <= rating_rank(s[j])
}

/// Filtering the first `i + 1` items adds the `i`-th to the filtered first
/// `i` where it passes.
pub proof fn lemma_filter_step<A>(s: Seq<A>, i: int, pred: spec_fn(A) -> bool)
    requires
        0 <= i < s.len(),
    ensures
        s.take(i + 1).filter(pred) == (if pred(s[i]) {
            s.take(i).filter(pred).push(s[i])
        } else {
            s.take(i).filter(pred)
        }),
{
    assert(s.take(i + 1) =~= s.take(i).push(s[i]));
    s.take(i).lemma_filter_push(s[i], pred);
}

/// The views of posts with one more pushed.
pub proof fn lemma_posts_view_push(v: Seq<Post>, p: Post)
    ensures
        posts_view(v.push(p)) == posts_view(v).push(p@),
{
    assert(posts_view(v.push(p)) =~= posts_view(v).push(p@));
}

/// The rank-sorted copy of `ratings`.
fn sort_ratings(ratings: &[Rating]) -> (r: Vec<Rating>)
    ensures
        r@.to_multiset() == ratings@.to_multiset(),
        ratings_sorted(r@),
{
    broadcast use vstd::seq_lib::group_to_multiset_ensures;

    let mut out: Vec<Rating> = Vec::new();
    let mut i: usize = 0;
    while i < ratings.len()
        invariant
            0 <= i <= ratings.len(),
            out@.to_multiset() == ratings@.take(i as int).to_multiset(),
            ratings_sorted(out@),
        decreases ratings.len() - i,
    {
        let x = ratings[i];
        let xr = x.rank();
        let mut k: usize = 0;
        while k < out.len()
            invariant
                0 <= k <= out.len(),
                ratings_sorted(out@),
                xr == rating_rank(x),
                forall|j: int| 0 <= j < k ==> rating_rank(#[trigger] out@[j]) <= rating_rank(x),
            ensures
                0 <= k <= out.len(),
                k < out.len() ==> rating_rank(out@[k as int]) > rating_rank(x),
                forall|j: int| 0 <= j < k ==> rating_rank(#[trigger] out@[j]) <= rating_rank(x),
            decreases out.len() - k,
        {
            let ok = out[k];
            if ok.rank() > xr {
                break;
            }
            k += 1;
        }
        assert(forall|j: int| k <= j < out.len() ==> rating_rank(#[trigger] out@[j]) > rating_rank(
            x,
        )) by {
            if k < out.len() {
                assert forall|j: int| k <= j < out.len() implies rating_rank(
                    #[trigger] out@[j],
                ) > rating_rank(x) by {
                    assert(rating_rank(out@[k as int]) <= rating_rank(out@[j]));
                }
            }
        }
        let ghost before = out@;
        out.insert(k, x);
        proof {
            vstd::seq_lib::to_multiset_insert(before, k as int, x);
            let t = ratings@.take(i as int);
            assert(ratings@.take(i + 1) =~= t.push(x));
            vstd::seq_lib::to_multiset_build(t, x);
            assert forall|a: int, b: int| 0 <= a < b < out@.len() implies rating_rank(out@[a])
                <= rating_rank(out@[b]) by {
                if a < k && b < k {
                } else if a < k && b == k {
                } else if a < k && b > k {
                    assert(rating_rank(before[a]) <= rating_rank(before[b - 1]));
                } else if a == k {
                    assert(rating_rank(before[b - 1]) > rating_rank(x));
                } else {
                    assert(rating_rank(before[a - 1]) <= rating_rank(before[b - 1]));
                }
            }
        }
        i += 1;
    }
    assert(ratings@.take(ratings.len() as int) =~= ratings@);
    out
}

proof fn lemma_rank_injective(a: Rating, b: Rating)
    ensures
        rating_rank(a) == rating_rank(b) ==> a == b,
{
}

/// Whether `x` is among the rank-sorted `sorted`, found by binary search.
fn sorted_ratings_contain(sorted: &Vec<Rating>, x: Rating) -> (r: bool)
    requires
        ratings_sorted(sorted@),
    ensures
        r == sorted@.contains(x),
{
    let xr = x.rank();
    let mut lo: usize = 0;
    let mut hi: usize = sorted.len();
    while lo < hi
        invariant
            0 <= lo <= hi <= sorted.len(),
            ratings_sorted(sorted@),
            xr == rating_rank(x),
            forall|j: int| 0 <= j < lo ==> rating_rank(#[trigger] sorted@[j]) < rating_rank(x),
            forall|j: int| hi <= j < sorted.len() ==> rating_rank(#[trigger] sorted@[j]) > rating_rank(
                x,
            ),
        decreases hi - lo,
    {
        let mid = lo + (hi - lo) / 2;
        let rm = sorted[mid];
        let mr = rm.rank();
        assert(rm == sorted@[mid as int]);
        if mr == xr {
            proof {
                lemma_rank_injective(sorted@[mid as int], x);
            }
            assert(sorted@[mid as int] == x);
            return true;
        } else if mr < xr {
            assert forall|j: int| 0 <= j < mid + 1 implies rating_rank(#[trigger] sorted@[j])
                < rating_rank(x) by {
                if j < lo {
                } else {
                    assert(rating_rank(sorted@[j]) <= rating_rank(sorted@[mid as int]));
                }
            }
            lo = mid + 1;
        } else {
            assert forall|j: int| mid <= j < sorted.len() implies rating_rank(#[trigger] sorted@[j])
                > rating_rank(x) by {
                if j >= hi {
                } else {
                    assert(rating_rank(sorted@[mid as int]) <= rating_rank(sorted@[j]));
                }
            }
            hi = mid;
        }
    }
    proof {
        if sorted@.contains(x) {
            let j = choose|j: int| 0 <= j < sorted@.len() && sorted@[j] == x;
            assert(rating_rank(sorted@[j]) == rating_rank(x));
        }
    }
    false
}

/// Keeps the posts of extension `e`, in order.
fn keep_extension(list: Vec<Post>, e: Extension) -> (r: Vec<Post>)
    ensures
        posts_view(r@) == posts_view(list@).filter(ext_is(e)),
{
    let ghost input = posts_view(list@);
    let mut out: Vec<Post> = Vec::new();
    for p in it: list
        invariant
            posts_view(it.seq()) == input,
            posts_view(out@) == input.take(it.index() as int).filter(ext_is(e)),
    {
        proof {
            assert(input[it.index() as int] == p@);
            lemma_filter_step(input, it.index() as int, ext_is(e));
            lemma_posts_view_push(out@, p);
        }
        if p.extension == e {
            out.push(p);
        }
    }
    assert(input.take(input.len() as int) =~= input);
    out
}

/// Keeps the posts whose rating is among `ratings`, in order.
fn keep_ratings(list: Vec<Post>, ratings: &Vec<Rating>) -> (r: Vec<Post>)
    requires
        ratings_sorted(ratings@),
    ensures
        posts_view(r@) == posts_view(list@).filter(rating_in(ratings@)),
{
    let ghost input = posts_view(list@);
    let mut out: Vec<Post> = Vec::new();
    for p in it: list
        invariant
            posts_view(it.seq()) == input,
            ratings_sorted(ratings@),
            posts_view(out@) == input.take(it.index() as int).filter(rating_in(ratings@)),
    {
        proof {
            assert(input[it.index() as int] == p@);
            lemma_filter_step(input, it.index() as int, rating_in(ratings@));
            lemma_posts_view_push(out@, p);
        }
        if sorted_ratings_contain(ratings, p.rating) {
            out.push(p);
        }
    }
    assert(input.take(input.len() as int) =~= input);
    out
}

/// Whether one of the post's tags is in the set.
fn post_has_tag_in(p: &Post, set: &AHashSet<String>) -> (r: bool)
    ensures
        r == has_blocked_tag(p@, tag_set_contents(*set)),
{
    let mut i: usize = 0;
    while i < p.tags.len()
        invariant
            0 <= i <= p.tags.len(),
            forall|j: int| 0 <= j < i ==> !tag_set_contents(*set).contains(#[trigger] p@.tags[j].text),
        decreases p.tags.len() - i,
    {
        assert(p@.tags[i as int] == p.tags@[i as int]@);
        if tag_set_contains(set, p.tags[i].tag()) {
            return true;
        }
        i += 1;
    }
    false
}

/// Keeps the posts with no tag in the set, in order.
fn keep_unblocked(list: Vec<Post>, set: &AHashSet<String>) -> (r: Vec<Post>)
    ensures
        posts_view(r@) == posts_view(list@).filter(no_blocked_tag(tag_set_contents(*set))),
{
    let ghost input = posts_view(list@);
    let ghost tags = tag_set_contents(*set);
    let mut out: Vec<Post> = Vec::new();
    for p in it: list
        invariant
            posts_view(it.seq()) == input,
            tags == tag_set_contents(*set),
            posts_view(out@) == input.take(it.index() as int).filter(no_blocked_tag(tags)),
    {
        proof {
            assert(input[it.index() as int] == p@);
            lemma_filter_step(input, it.index() as int, no_blocked_tag(tags));
            lemma_posts_view_push(out@, p);
        }
        if !post_has_tag_in(&p, set) {
            out.push(p);
        }
    }
    assert(input.take(input.len() as int) =~= input);
    out
}

/// Whether the post is animated.
fn post_is_animated(p: &Post) -> (r: bool)
    ensures
        r == is_animated(p@),
{
    if p.extension.is_video() {
        return true;
    }
    let mut i: usize = 0;
    while i < p.tags.len()
        invariant
            0 <= i <= p.tags.len(),
            forall|j: int| 0 <= j < i ==> #[trigger] p@.tags[j] != animated_tag(),
        decreases p.tags.len() - i,
    {
        let t = &p.tags[i];
        assert(p@.tags[i as int] == t@);
        if t.tag_type() == TagType::Meta && str_eq(t.tag(), "animated") {
            assert(p@.tags[i as int] == animated_tag());
            return true;
        }
        i += 1;
    }
    false
}

/// Keeps the posts that are not animated, in order.
fn keep_still(list: Vec<Post>) -> (r: Vec<Post>)
    ensures
        posts_view(r@) == posts_view(list@).filter(not_animated()),
{
    let ghost input = posts_view(list@);
    let mut out: Vec<Post> = Vec::new();
    for p in it: list
        invariant
            posts_view(it.seq()) == input,
            posts_view(out@) == input.take(it.index() as int).filter(not_animated()),
    {
        proof {
            assert(input[it.index() as int] == p@);
            lemma_filter_step(input, it.index() as int, not_animated());
            lemma_posts_view_push(out@, p);
        }
        if !post_is_animated(&p) {
            out.push(p);
        }
    }
    assert(input.take(input.len() as int) =~= input);
    out
}

impl BlacklistFilter {
    /// The blacklisted tags.
    pub closed spec fn spec_tags(&self) -> Set<Seq<char>> {
        tag_set_contents(self.gbl_tags)
    }

    /// The ratings to keep; none selected keeps every rating.
    pub closed spec fn spec_ratings(&self) -> Seq<Rating> {
        self.selected_ratings@
    }

    pub closed spec fn spec_tag_blacklisting_disabled(&self) -> bool {
        self.tag_blacklisting_disabled
    }

    pub closed spec fn spec_ignore_animated(&self) -> bool {
        self.ignore_animated
    }

    pub closed spec fn spec_extension(&self) -> Option<Extension> {
        self.extension
    }

    pub closed spec fn wf(&self) -> bool {
        ratings_sorted(self.selected_ratings@)
    }

    /// The posts of the forced extension, if one is forced.
    pub open spec fn after_extension(&self, s: Seq<PostView>) -> Seq<PostView> {
        match self.spec_extension() {
            Some(e) => s.filter(ext_is(e)),
            None => s,
        }
    }

    /// Then the posts of a selected rating, if ratings are selected.
    pub open spec fn after_ratings(&self, s: Seq<PostView>) -> Seq<PostView> {
        let s1 = self.after_extension(s);
        if self.spec_ratings().len() > 0 {
            s1.filter(rating_in(self.spec_ratings()))
        } else {
            s1
        }
    }

    /// Then the posts without a blacklisted tag, unless tag blacklisting is off.
    pub open spec fn after_tags(&self, s: Seq<PostView>) -> Seq<PostView> {
        let s2 = self.after_ratings(s);
        if !self.spec_tag_blacklisting_disabled() && self.spec_tags() != Set::<Seq<char>>::empty() {
            s2.filter(no_blocked_tag(self.spec_tags()))
        } else {
            s2
        }
    }

    /// Then the posts that are not animated, if animated posts are ignored:
    /// the posts that the filter keeps.
    pub open spec fn kept(&self, s: Seq<PostView>) -> Seq<PostView> {
        let s3 = self.after_tags(s);
        if self.spec_ignore_animated() {
            s3.filter(not_animated())
        } else {
            s3
        }
    }

    /// The number of posts the filter removes.
    pub open spec fn removed_count(&self, s: Seq<PostView>) -> int {
        s.len() - self.kept(s).len()
    }

    /// Whether this is the filter made from the blacklist configuration
    /// `sections` for `imageboard`: unless tag blacklisting is disabled, the
    /// blacklisted tags are `tags`, the tags of the `global` section and the
    /// tags of the section named after the imageboard in lower case; the
    /// ratings are those selected, sorted.
    pub open spec fn made_from(
        &self,
        sections: Seq<(Seq<char>, Seq<Seq<char>>)>,
        imageboard: ImageBoards,
        tags: Seq<Seq<char>>,
        ratings: Seq<Rating>,
        disable_tag_blacklisting: bool,
        ignore_animated: bool,
        extension: Option<Extension>,
    ) -> bool {
        &&& self.wf()
        &&& self.spec_tags() == (if disable_tag_blacklisting {
            Set::<Seq<char>>::empty()
        } else {
            tags.to_set().union(tags_or_none(section_tags(sections, "global"@))).union(
                tags_or_none(section_tags(sections, lower_seq(board_name(imageboard)))),
            )
        })
        &&& self.spec_ratings().to_multiset() == ratings.to_multiset()
        &&& self.spec_tag_blacklisting_disabled() == disable_tag_blacklisting
        &&& self.spec_ignore_animated() == ignore_animated
        &&& self.spec_extension() == extension
    }

    /// Creates a filter from the blacklist configuration.
    ///
    /// Unless `disable_tag_blacklisting` is set, the blacklisted tags are the
    /// `additional_tags_to_blacklist`, the tags of the `global` section and the
    /// tags of the section named after the imageboard in lower case. The
    /// selected ratings are kept sorted.
    pub fn new(
        global_blacklist_config: &GlobalBlacklist,
        imageboard: ImageBoards,
        additional_tags_to_blacklist: &[String],
        selected_ratings: &[Rating],
        disable_tag_blacklisting: bool,
        ignore_animated: bool,
        extension: Option<Extension>,
    ) -> (r: Self)
        ensures
            r.made_from(
                global_blacklist_config.sections(),
                imageboard,
                strings_view(additional_tags_to_blacklist@),
                selected_ratings@,
                disable_tag_blacklisting,
                ignore_animated,
                extension,
            ),
    {
        let mut gbl_tags = tag_set_new();
        if !disable_tag_blacklisting {
            let extra = clone_strings(additional_tags_to_blacklist);
            tag_set_extend(&mut gbl_tags, extra);
            let ghost after_extra = tag_set_contents(gbl_tags);
            match global_blacklist_config.get("global") {
                Some(global) => {
                    tag_set_extend(&mut gbl_tags, clone_strings(global.as_slice()));
                },
                None => {
                    assert(strings_view(Seq::<String>::empty()).to_set() =~= Set::<
                        Seq<char>,
                    >::empty());
                },
            }
            let ghost after_global = tag_set_contents(gbl_tags);
            assert(after_global == after_extra.union(
                tags_or_none(global_blacklist_config.spec_get("global"@)),
            )) by {
                if global_blacklist_config.spec_get("global"@) is None {
                    assert(after_extra.union(Set::<Seq<char>>::empty()) =~= after_extra);
                }
            }
            let name = imageboard.to_string();
            let key = to_lower_ascii(name.as_str());
            match global_blacklist_config.get(key.as_str()) {
                Some(special) => {
                    tag_set_extend(&mut gbl_tags, clone_strings(special.as_slice()));
                },
                None => {
                    assert(after_global.union(Set::<Seq<char>>::empty()) =~= after_global);
                },
            }
            assert(strings_view(additional_tags_to_blacklist@) == strings_view(extra@));
        } else {
        }
        let sorted_list = sort_ratings(selected_ratings);
        let r = BlacklistFilter {
            gbl_tags,
            selected_ratings: sorted_list,
            tag_blacklisting_disabled: disable_tag_blacklisting,
            ignore_animated,
            extension,
        };
        assert(r.spec_tags() =~= (if disable_tag_blacklisting {
            Set::<Seq<char>>::empty()
        } else {
            strings_view(additional_tags_to_blacklist@).to_set().union(
                tags_or_none(section_tags(global_blacklist_config.sections(), "global"@)),
            ).union(
                tags_or_none(
                    section_tags(
                        global_blacklist_config.sections(),
                        lower_seq(board_name(imageboard)),
                    ),
                ),
            )
        }));
        r
    }

    /// Filters the posts: keeps those of the forced extension, then those of
    /// a selected rating, then (unless tag blacklisting is off) those without
    /// a blacklisted tag, then (if animated posts are ignored) those that are
    /// not animated. Returns the total number of posts removed and the kept
    /// posts in order.
    pub fn filter(&self, list: Vec<Post>) -> (r: (u64, Vec<Post>))
        requires
            self.wf(),
        ensures
            posts_view(r.1@) == self.kept(posts_view(list@)),
            r.0 == self.removed_count(posts_view(list@)),
            r.0 + r.1@.len() == list@.len(),
    {
        let ghost s = posts_view(list@);
        let original_size = list.len();
        let mut removed: u64 = 0;
        let list1 = match self.extension {
            Some(ext) => {
                let l = keep_extension(list, ext);
                proof {
                    s.lemma_filter_len(ext_is(ext));
                }
                removed = (original_size - l.len()) as u64;
                l
            },
            None => list,
        };
        assert(posts_view(list1@) == self.after_extension(s));
        let size1 = list1.len();
        let list2 = if self.selected_ratings.len() > 0 {
            let l = keep_ratings(list1, &self.selected_ratings);
            proof {
                posts_view(list1@).lemma_filter_len(rating_in(self.selected_ratings@));
            }
            removed = removed + (size1 - l.len()) as u64;
            l
        } else {
            list1
        };
        assert(posts_view(list2@) == self.after_ratings(s));
        let size2 = list2.len();
        let list3 = if !self.tag_blacklisting_disabled {
            if tag_set_is_empty(&self.gbl_tags) {
                list2
            } else {
                let l = keep_unblocked(list2, &self.gbl_tags);
                proof {
                    posts_view(list2@).lemma_filter_len(no_blocked_tag(tag_set_contents(self.gbl_tags)));
                }
                removed = removed + (size2 - l.len()) as u64;
                l
            }
        } else {
            list2
        };
        assert(posts_view(list3@) == self.after_tags(s));
        let size3 = list3.len();
        let list4 = if self.ignore_animated {
            let l = keep_still(list3);
            proof {
                posts_view(list3@).lemma_filter_len(not_animated());
            }
            removed = removed + (size3 - l.len()) as u64;
            l
        } else {
            list3
        };
        (removed, list4)
    }
}

/// Whether a post passes every stage of the filter.
pub open spec fn accepted_by(f: BlacklistFilter, p: PostView) -> bool {
    &&& (f.spec_extension() matches Some(e) ==> p.extension == e)
    &&& (f.spec_ratings().len() > 0 ==> f.spec_ratings().contains(p.rating))
    &&& (!f.spec_tag_blacklisting_disabled() ==> !has_blocked_tag(p, f.spec_tags()))
    &&& (f.spec_ignore_animated() ==> !is_animated(p))
}

proof fn lemma_filter_filter<A>(s: Seq<A>, p: spec_fn(A) -> bool, q: spec_fn(A) -> bool)
    ensures
        s.filter(p).filter(q) == s.filter(|x: A| p(x) && q(x)),
    decreases s.len(),
{
    reveal(Seq::filter);
    if s.len() > 0 {
        lemma_filter_filter(s.drop_last(), p, q);
        let x = s.last();
        if p(x) {
            s.drop_last().filter(p).lemma_filter_push(x, q);
        }
    }
}

proof fn lemma_filter_ext<A>(s: Seq<A>, p: spec_fn(A) -> bool, q: spec_fn(A) -> bool)
    requires
        forall|x: A| #[trigger] p(x) == q(x),
    ensures
        s.filter(p) == s.filter(q),
    decreases s.len(),
{
    reveal(Seq::filter);
    if s.len() > 0 {
        lemma_filter_ext(s.drop_last(), p, q);
    }
}

proof fn lemma_filter_true<A>(s: Seq<A>, p: spec_fn(A) -> bool)
    requires
        forall|x: A| #[trigger] p(x),
    ensures
        s.filter(p) == s,
    decreases s.len(),
{
    reveal(Seq::filter);
    if s.len() > 0 {
        lemma_filter_true(s.drop_last(), p);
        assert(s.drop_last().push(s.last()) =~= s);
    }
}

/// The filter keeps exactly the posts that pass every one of its stages,
/// in their original order: a kept post has the forced extension, a
/// selected rating, no blacklisted tag and no animation (each where that
/// stage is on), and every post that has these is kept.
pub proof fn lemma_kept_is_accepted(f: BlacklistFilter, s: Seq<PostView>)
    ensures
        f.kept(s) == s.filter(|p: PostView| accepted_by(f, p)),
{
    let pe = |p: PostView| f.spec_extension() matches Some(e) ==> p.extension == e;
    let pr = |p: PostView| f.spec_ratings().len() > 0 ==> f.spec_ratings().contains(p.rating);
    let pt = |p: PostView|
        (!f.spec_tag_blacklisting_disabled() && f.spec_tags() != Set::<Seq<char>>::empty())
            ==> !has_blocked_tag(p, f.spec_tags());
    let pa = |p: PostView| f.spec_ignore_animated() ==> !is_animated(p);
    // each stage is a filter by its own predicate, identity when the stage is off
    let s1 = f.after_extension(s);
    match f.spec_extension() {
        Some(e) => {
            lemma_filter_ext(s, ext_is(e), pe);
        },
        None => {
            lemma_filter_true(s, pe);
        },
    }
    assert(s1 == s.filter(pe));
    let s2 = f.after_ratings(s);
    if f.spec_ratings().len() > 0 {
        lemma_filter_ext(s1, rating_in(f.spec_ratings()), pr);
    } else {
        lemma_filter_true(s1, pr);
    }
    assert(s2 == s1.filter(pr));
    let s3 = f.after_tags(s);
    if !f.spec_tag_blacklisting_disabled() && f.spec_tags() != Set::<Seq<char>>::empty() {
        lemma_filter_ext(s2, no_blocked_tag(f.spec_tags()), pt);
    } else {
        lemma_filter_true(s2, pt);
    }
    assert(s3 == s2.filter(pt));
    if f.spec_ignore_animated() {
        lemma_filter_ext(s3, not_animated(), pa);
    } else {
        lemma_filter_true(s3, pa);
    }
    assert(f.kept(s) == s3.filter(pa));
    lemma_filter_filter(s, pe, pr);
    let per = |x: PostView| pe(x) && pr(x);
    lemma_filter_filter(s, per, pt);
    let pert = |x: PostView| per(x) && pt(x);
    lemma_filter_filter(s, pert, pa);
    let all = |x: PostView| pert(x) && pa(x);
    assert forall|x: PostView| #[trigger] all(x) == accepted_by(f, x) by {
        if f.spec_tags() == Set::<Seq<char>>::empty() {
            assert(!has_blocked_tag(x, f.spec_tags()));
        }
    }
    lemma_filter_ext(s, all, |p: PostView| accepted_by(f, p));
}

/// Every post the filter keeps passes every one of its stages.
pub proof fn lemma_kept_posts_pass(f: BlacklistFilter, s: Seq<PostView>)
    ensures
        forall|i: int| 0 <= i < f.kept(s).len() ==> accepted_by(f, #[trigger] f.kept(s)[i]),
{
    lemma_kept_is_accepted(f, s);
    let acc = |p: PostView| accepted_by(f, p);
    assert forall|i: int| 0 <= i < f.kept(s).len() implies accepted_by(f, #[trigger] f.kept(s)[i]) by {
        s.lemma_filter_pred(acc, i);
    }
}

/// The same posts in another order pass the filter as well.
pub proof fn lemma_reordered_posts_pass(f: BlacklistFilter, q: Seq<PostView>, s: Seq<PostView>)
    requires
        q.to_multiset() == s.to_multiset(),
        forall|i: int| 0 <= i < s.len() ==> accepted_by(f, #[trigger] s[i]),
    ensures
        forall|i: int| 0 <= i < q.len() ==> accepted_by(f, #[trigger] q[i]),
{
    assert forall|i: int| 0 <= i < q.len() implies accepted_by(f, #[trigger] q[i]) by {
        let x = q[i];
        vstd::seq_lib::to_multiset_contains(q, x);
        vstd::seq_lib::to_multiset_contains(s, x);
        assert(q.contains(x));
        let j = choose|j: int| 0 <= j < s.len() && s[j] == x;
        assert(accepted_by(f, s[j]));
    }
}

/// Filtering twice is filtering once: the filter keeps every post of a list
/// it has already filtered, and reports none removed.
pub proof fn lemma_filter_idempotent(f: BlacklistFilter, s: Seq<PostView>)
    ensures
        f.kept(f.kept(s)) == f.kept(s),
        f.removed_count(f.kept(s)) == 0,
{
    let k = f.kept(s);
    lemma_kept_is_accepted(f, s);
    lemma_kept_is_accepted(f, k);
    let acc = |p: PostView| accepted_by(f, p);
    assert forall|i: int| 0 <= i < k.len() implies #[trigger] acc(k[i]) by {
        s.lemma_filter_pred(acc, i);
    }
    lemma_filter_all_hold(k, acc);
    // every stage leaves k unchanged
    match f.spec_extension() {
        Some(e) => {
            assert forall|i: int| 0 <= i < k.len() implies #[trigger] ext_is(e)(k[i]) by {
                assert(acc(k[i]));
            }
            lemma_filter_all_hold(k, ext_is(e));
        },
        None => {},
    }
    assert(f.after_extension(k) == k);
    if f.spec_ratings().len() > 0 {
        assert forall|i: int| 0 <= i < k.len() implies #[trigger] rating_in(f.spec_ratings())(k[i]) by {
            assert(acc(k[i]));
        }
        lemma_filter_all_hold(k, rating_in(f.spec_ratings()));
    }
    assert(f.after_ratings(k) == k);
    if !f.spec_tag_blacklisting_disabled() && f.spec_tags() != Set::<Seq<char>>::empty() {
        assert forall|i: int| 0 <= i < k.len() implies #[trigger] no_blocked_tag(f.spec_tags())(k[i]) by {
            assert(acc(k[i]));
        }
        lemma_filter_all_hold(k, no_blocked_tag(f.spec_tags()));
    }
    assert(f.after_tags(k) == k);
    if f.spec_ignore_animated() {
        assert forall|i: int| 0 <= i < k.len() implies #[trigger] not_animated()(k[i]) by {
            assert(acc(k[i]));
        }
        lemma_filter_all_hold(k, not_animated());
    }
}

proof fn lemma_filter_all_hold<A>(s: Seq<A>, p: spec_fn(A) -> bool)
    requires
        forall|i: int| 0 <= i < s.len() ==> #[trigger] p(s[i]),
    ensures
        s.filter(p) == s,
    decreases s.len(),
{
    reveal(Seq::filter);
    if s.len() > 0 {
        assert(p(s[s.len() - 1]));
        lemma_filter_all_hold(s.drop_last(), p);
        assert(s.drop_last().push(s.last()) =~= s);
    }
}


} // verus!
