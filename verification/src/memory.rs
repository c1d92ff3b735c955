//! In-memory stores: every resource kept in a list, in the order of creation.
//!
//! These stores are the reference behaviour of the store operations: a read
//! gives back what a create wrote, a listing holds everything created (those
//! of one parent, for threads, posts and events), a lookup of an unknown
//! identifier is answered with `NotFound`, and a status change records an
//! event that names the status before and after.

use vstd::prelude::*;
use crate::ids::{fresh_id, is_random_uuid, now, Timestamp};
use crate::channels::{Channel, ChannelError, ChannelStore, Post, Thread};
use crate::issues::{clone_opt_string, Issue, IssueError, IssueEvent, IssueStore};
use crate::artifacts::{Artifact, ArtifactError, ArtifactStore};

verus! {

broadcast use vstd::seq_lib::group_seq_properties;

// ---------------------------------------------------------------------------
// Lookup by identifier
// ---------------------------------------------------------------------------

/// The position of the first element whose key is `id`, or -1 where none is.
pub open spec fn index_of_id<T>(s: Seq<T>, key: spec_fn(T) -> u128, id: u128) -> int
    decreases s.len(),
{
    if s.len() == 0 {
        -1
    } else if key(s[0]) == id {
        0
    } else {
        let r = index_of_id(s.drop_first(), key, id);
        if r < 0 {
            -1
        } else {
            r + 1
        }
    }
}

/// The first element whose key is `id`.
pub open spec fn find_by_id<T>(s: Seq<T>, key: spec_fn(T) -> u128, id: u128) -> Option<T> {
    let k = index_of_id(s, key, id);
    if k >= 0 {
        Some(s[k])
    } else {
        None
    }
}

/// `index_of_id` is the first position whose key is `id`, and -1 exactly
/// where no key is `id`.
pub proof fn lemma_index_of_id<T>(s: Seq<T>, key: spec_fn(T) -> u128, id: u128)
    ensures
        -1 <= index_of_id(s, key, id) < s.len(),
        index_of_id(s, key, id) >= 0 ==> key(s[index_of_id(s, key, id)]) == id,
        forall|j: int| 0 <= j < index_of_id(s, key, id) ==> key(#[trigger] s[j]) != id,
        index_of_id(s, key, id) < 0 ==> forall|j: int| 0 <= j < s.len() ==> key(#[trigger] s[j]) != id,
    decreases s.len(),
{
    if s.len() > 0 && key(s[0]) != id {
        let t = s.drop_first();
        lemma_index_of_id(t, key, id);
        assert forall|j: int| 0 < j < s.len() implies s[j] == #[trigger] t[j - 1] by {}
        let r = index_of_id(t, key, id);
        if r < 0 {
            assert forall|j: int| 0 <= j < s.len() implies key(#[trigger] s[j]) != id by {
                if j > 0 {
                    assert(s[j] == t[j - 1]);
                }
            }
        } else {
            assert forall|j: int| 0 <= j < r + 1 implies key(#[trigger] s[j]) != id by {
                if j > 0 {
                    assert(s[j] == t[j - 1]);
                }
            }
        }
    }
}

/// Appending an element keeps the first match where there was one, and
/// otherwise finds the new element exactly where its key is `id`.
pub proof fn lemma_find_after_push<T>(s: Seq<T>, key: spec_fn(T) -> u128, x: T, id: u128)
    ensures
        find_by_id(s.push(x), key, id) == (if find_by_id(s, key, id) is Some {
            find_by_id(s, key, id)
        } else if key(x) == id {
            Some(x)
        } else {
            None
        }),
{
    let t = s.push(x);
    lemma_index_of_id(s, key, id);
    lemma_index_of_id(t, key, id);
    let a = index_of_id(s, key, id);
    let b = index_of_id(t, key, id);
    if a >= 0 {
        assert(t[a] == s[a]);
        if b < a {
            assert(t[b] == s[b]);
        }
        assert(b == a);
    } else if key(x) == id {
        assert(t[s.len() as int] == x);
        if b >= 0 && b < s.len() {
            assert(t[b] == s[b]);
        }
        assert(b == s.len());
    } else {
        if b >= 0 {
            if b < s.len() {
                assert(t[b] == s[b]);
            }
        }
        assert(b < 0);
    }
}

/// Replacing the first element with key `id` by one with the same key:
/// every lookup of `id` finds the replacement, and its position is unchanged.
pub proof fn lemma_find_after_update<T>(s: Seq<T>, key: spec_fn(T) -> u128, id: u128, x: T)
    requires
        index_of_id(s, key, id) >= 0,
        key(x) == id,
    ensures
        index_of_id(s.update(index_of_id(s, key, id), x), key, id) == index_of_id(s, key, id),
        find_by_id(s.update(index_of_id(s, key, id), x), key, id) == Some(x),
{
    let k = index_of_id(s, key, id);
    let t = s.update(k, x);
    lemma_index_of_id(s, key, id);
    lemma_index_of_id(t, key, id);
    let b = index_of_id(t, key, id);
    if b >= 0 && b < k {
        assert(t[b] == s[b]);
    }
    assert(t[k] == x);
    assert(b == k);
}

/// Appending to a list filtered by `pred` after appending one element.
pub proof fn lemma_filter_after_push<T>(s: Seq<T>, pred: spec_fn(T) -> bool, x: T)
    ensures
        s.push(x).filter(pred) == (if pred(x) {
            s.filter(pred).push(x)
        } else {
            s.filter(pred)
        }),
{
    s.lemma_filter_push(x, pred);
}

// ---------------------------------------------------------------------------
// Fresh identifiers
// ---------------------------------------------------------------------------

/// Items that carry an identifier.
pub trait Identified {
    /// The item's identifier.
    spec fn ident(&self) -> u128;

    /// The item's identifier.
    fn identifier(&self) -> (r: u128)
        ensures
            r == self.ident(),
    ;
}

impl Identified for Channel {
    open spec fn ident(&self) -> u128 {
        self.id
    }

    fn identifier(&self) -> (r: u128) {
        self.id
    }
}

impl Identified for Thread {
    open spec fn ident(&self) -> u128 {
        self.id
    }

    fn identifier(&self) -> (r: u128) {
        self.id
    }
}

impl Identified for Post {
    open spec fn ident(&self) -> u128 {
        self.id
    }

    fn identifier(&self) -> (r: u128) {
        self.id
    }
}

impl Identified for Issue {
    open spec fn ident(&self) -> u128 {
        self.id
    }

    fn identifier(&self) -> (r: u128) {
        self.id
    }
}

impl Identified for IssueEvent {
    open spec fn ident(&self) -> u128 {
        self.id
    }

    fn identifier(&self) -> (r: u128) {
        self.id
    }
}

impl Identified for Artifact {
    open spec fn ident(&self) -> u128 {
        self.id
    }

    fn identifier(&self) -> (r: u128) {
        self.id
    }
}

/// A version 4 identifier that no item of `items` has.
fn fresh_among<T: Identified>(items: &Vec<T>) -> (id: u128)
    ensures
        is_random_uuid(id),
        forall|i: int| 0 <= i < items@.len() ==> (#[trigger] items@[i]).ident() != id,
{
    let mut taken: Vec<u128> = Vec::new();
    let mut i: usize = 0;
    while i < items.len()
        invariant
            i <= items.len(),
            taken@.len() == i,
            forall|j: int| 0 <= j < i ==> taken@[j] == (#[trigger] items@[j]).ident(),
        decreases items.len() - i,
    {
        taken.push(items[i].identifier());
        i = i + 1;
    }
    let id = fresh_id(&taken);
    assert forall|i: int| 0 <= i < items@.len() implies (#[trigger] items@[i]).ident() != id by {
        assert(taken@[i] == items@[i].ident());
        if items@[i].ident() == id {
            assert(taken@.contains(id));
        }
    }
    id
}

// ---------------------------------------------------------------------------
// Channels, threads and posts
// ---------------------------------------------------------------------------

/// The identifier of a channel.
pub open spec fn channel_key() -> spec_fn(Channel) -> u128 {
    |c: Channel| c.id
}

/// The identifier of a thread.
pub open spec fn thread_key() -> spec_fn(Thread) -> u128 {
    |t: Thread| t.id
}

/// Whether a thread belongs to the channel `channel_id`.
pub open spec fn thread_in(channel_id: u128) -> spec_fn(Thread) -> bool {
    |t: Thread| t.channel_id == channel_id
}

/// Whether a post belongs to the thread `thread_id`.
pub open spec fn post_in(thread_id: u128) -> spec_fn(Post) -> bool {
    |p: Post| p.thread_id == thread_id
}

/// The answer to a lookup of channel `id` among `channels`.
pub open spec fn channel_lookup(channels: Seq<Channel>, id: u128) -> Result<Channel, ChannelError> {
    match find_by_id(channels, channel_key(), id) {
        Some(c) => Ok(c),
        None => Err(ChannelError::NotFound(id)),
    }
}

/// The answer to a lookup of thread `id` among `threads`.
pub open spec fn thread_lookup(threads: Seq<Thread>, id: u128) -> Result<Thread, ChannelError> {
    match find_by_id(threads, thread_key(), id) {
        Some(t) => Ok(t),
        None => Err(ChannelError::NotFound(id)),
    }
}

/// A channel store's contents.
pub struct ChannelStoreView {
    pub channels: Seq<Channel>,
    pub threads: Seq<Thread>,
    pub posts: Seq<Post>,
}

/// Channels, threads and posts kept in memory.
pub struct InMemoryChannelStore {
    channels: Vec<Channel>,
    threads: Vec<Thread>,
    posts: Vec<Post>,
}

impl View for InMemoryChannelStore {
    type V = ChannelStoreView;

    closed spec fn view(&self) -> ChannelStoreView {
        ChannelStoreView { channels: self.channels@, threads: self.threads@, posts: self.posts@ }
    }
}

impl ChannelStore for InMemoryChannelStore {}

impl InMemoryChannelStore {
    /// An empty store.
    pub fn new() -> (s: Self)
        ensures
            s@.channels == Seq::<Channel>::empty(),
            s@.threads == Seq::<Thread>::empty(),
            s@.posts == Seq::<Post>::empty(),
    {
        InMemoryChannelStore { channels: Vec::new(), threads: Vec::new(), posts: Vec::new() }
    }

    /// All channels, in the order of creation.
    pub fn list_channels(&self) -> (r: Result<Vec<Channel>, ChannelError>)
        ensures
            r matches Ok(v) && v@ == self@.channels,
    {
        let mut out: Vec<Channel> = Vec::new();
        let mut i: usize = 0;
        while i < self.channels.len()
            invariant
                i <= self.channels.len(),
                out@ == self.channels@.take(i as int),
            decreases self.channels.len() - i,
        {
            out.push(self.channels[i].clone());
            assert(self.channels@.take(i + 1) == self.channels@.take(i as int).push(self.channels@[i as int]));
            i = i + 1;
        }
        assert(self.channels@.take(self.channels.len() as int) == self.channels@);
        Ok(out)
    }

    /// The first channel with identifier `id`, or `NotFound(id)`.
    pub fn get_channel(&self, id: u128) -> (r: Result<Channel, ChannelError>)
        ensures
            r == channel_lookup(self@.channels, id),
    {
        proof {
            lemma_index_of_id(self.channels@, channel_key(), id);
        }
        let mut i: usize = 0;
        while i < self.channels.len()
            invariant
                i <= self.channels.len(),
                forall|j: int| 0 <= j < i ==> (#[trigger] self.channels@[j]).id != id,
            decreases self.channels.len() - i,
        {
            if self.channels[i].id == id {
                proof {
                    lemma_index_of_id(self.channels@, channel_key(), id);
                    let k = index_of_id(self.channels@, channel_key(), id);
                    if k >= 0 && k < i {
                        assert(self.channels@[k].id != id);
                    }
                    assert(k == i);
                }
                return Ok(self.channels[i].clone());
            }
            i = i + 1;
        }
        proof {
            lemma_index_of_id(self.channels@, channel_key(), id);
            let k = index_of_id(self.channels@, channel_key(), id);
            if k >= 0 {
                assert(self.channels@[k].id != id);
            }
        }
        Err(ChannelError::NotFound(id))
    }

    /// Creates a channel with a fresh identifier and the current time, and
    /// appends it to the channels.
    pub fn create_channel(&mut self, name: String, description: String) -> (r: Result<
        Channel,
        ChannelError,
    >)
        ensures
            r matches Ok(c) && {
                &&& is_random_uuid(c.id)
                &&& forall|i: int| 0 <= i < old(self)@.channels.len()
                    ==> (#[trigger] old(self)@.channels[i]).id != c.id
                &&& channel_lookup(final(self)@.channels, c.id) == Ok::<Channel, ChannelError>(c)
                &&& c.name == name
                &&& c.description == description
                &&& final(self)@.channels == old(self)@.channels.push(c)
                &&& final(self)@.threads == old(self)@.threads
                &&& final(self)@.posts == old(self)@.posts
            },
    {
        let id = fresh_among(&self.channels);
        let channel = Channel { id, name, description, created_at: now() };
        self.channels.push(channel.clone());
        proof {
            law_channel_read_after_create(old(self)@.channels, channel, id);
        }
        Ok(channel)
    }

    /// The threads of channel `channel_id`, in the order of creation.
    pub fn list_threads(&self, channel_id: u128) -> (r: Result<Vec<Thread>, ChannelError>)
        ensures
            r matches Ok(v) && v@ == self@.threads.filter(thread_in(channel_id)),
    {
        let ghost pred = thread_in(channel_id);
        let mut out: Vec<Thread> = Vec::new();
        let mut i: usize = 0;
        while i < self.threads.len()
            invariant
                i <= self.threads.len(),
                pred == thread_in(channel_id),
                out@ == self.threads@.take(i as int).filter(pred),
            decreases self.threads.len() - i,
        {
            proof {
                assert(self.threads@.take(i + 1) == self.threads@.take(i as int).push(self.threads@[i as int]));
                lemma_filter_after_push(self.threads@.take(i as int), pred, self.threads@[i as int]);
            }
            if self.threads[i].channel_id == channel_id {
                out.push(self.threads[i].clone());
            }
            i = i + 1;
        }
        assert(self.threads@.take(self.threads.len() as int) == self.threads@);
        Ok(out)
    }

    /// The first thread with identifier `id`, or `NotFound(id)`.
    pub fn get_thread(&self, id: u128) -> (r: Result<Thread, ChannelError>)
        ensures
            r == thread_lookup(self@.threads, id),
    {
        proof {
            lemma_index_of_id(self.threads@, thread_key(), id);
        }
        let mut i: usize = 0;
        while i < self.threads.len()
            invariant
                i <= self.threads.len(),
                forall|j: int| 0 <= j < i ==> (#[trigger] self.threads@[j]).id != id,
            decreases self.threads.len() - i,
        {
            if self.threads[i].id == id {
                proof {
                    lemma_index_of_id(self.threads@, thread_key(), id);
                    let k = index_of_id(self.threads@, thread_key(), id);
                    if k >= 0 && k < i {
                        assert(self.threads@[k].id != id);
                    }
                    assert(k == i);
                }
                return Ok(self.threads[i].clone());
            }
            i = i + 1;
        }
        proof {
            lemma_index_of_id(self.threads@, thread_key(), id);
            let k = index_of_id(self.threads@, thread_key(), id);
            if k >= 0 {
                assert(self.threads@[k].id != id);
            }
        }
        Err(ChannelError::NotFound(id))
    }

    /// Creates a thread of channel `channel_id` and appends it to the threads.
    /// The channel is not looked up.
    pub fn create_thread(&mut self, channel_id: u128, title: String, author: String) -> (r:
        Result<Thread, ChannelError>)
        ensures
            r matches Ok(t) && {
                &&& is_random_uuid(t.id)
                &&& forall|i: int| 0 <= i < old(self)@.threads.len()
                    ==> (#[trigger] old(self)@.threads[i]).id != t.id
                &&& thread_lookup(final(self)@.threads, t.id) == Ok::<Thread, ChannelError>(t)
                &&& t.channel_id == channel_id
                &&& t.title == title
                &&& t.author == author
                &&& final(self)@.threads == old(self)@.threads.push(t)
                &&& final(self)@.channels == old(self)@.channels
                &&& final(self)@.posts == old(self)@.posts
            },
    {
        let id = fresh_among(&self.threads);
        let thread = Thread { id, channel_id, title, author, created_at: now() };
        self.threads.push(thread.clone());
        proof {
            law_thread_read_after_create(old(self)@.threads, thread, id);
        }
        Ok(thread)
    }

    /// The posts of thread `thread_id`, in the order of creation.
    pub fn list_posts(&self, thread_id: u128) -> (r: Result<Vec<Post>, ChannelError>)
        ensures
            r matches Ok(v) && v@ == self@.posts.filter(post_in(thread_id)),
    {
        let ghost pred = post_in(thread_id);
        let mut out: Vec<Post> = Vec::new();
        let mut i: usize = 0;
        while i < self.posts.len()
            invariant
                i <= self.posts.len(),
                pred == post_in(thread_id),
                out@ == self.posts@.take(i as int).filter(pred),
            decreases self.posts.len() - i,
        {
            proof {
                assert(self.posts@.take(i + 1) == self.posts@.take(i as int).push(self.posts@[i as int]));
                lemma_filter_after_push(self.posts@.take(i as int), pred, self.posts@[i as int]);
            }
            if self.posts[i].thread_id == thread_id {
                out.push(self.posts[i].clone());
            }
            i = i + 1;
        }
        assert(self.posts@.take(self.posts.len() as int) == self.posts@);
        Ok(out)
    }

    /// Creates a post in thread `thread_id` and appends it to the posts. The
    /// thread is not looked up.
    pub fn create_post(&mut self, thread_id: u128, author: String, content: String) -> (r:
        Result<Post, ChannelError>)
        ensures
            r matches Ok(p) && {
                &&& is_random_uuid(p.id)
                &&& forall|i: int| 0 <= i < old(self)@.posts.len()
                    ==> (#[trigger] old(self)@.posts[i]).id != p.id
                &&& p.thread_id == thread_id
                &&& p.author == author
                &&& p.content == content
                &&& final(self)@.posts == old(self)@.posts.push(p)
                &&& final(self)@.channels == old(self)@.channels
                &&& final(self)@.threads == old(self)@.threads
            },
    {
        let id = fresh_among(&self.posts);
        let post = Post { id, thread_id, author, content, created_at: now() };
        self.posts.push(post.clone());
        Ok(post)
    }
}

// ---------------------------------------------------------------------------
// Issues and their events
// ---------------------------------------------------------------------------

/// The identifier of an issue.
pub open spec fn issue_key() -> spec_fn(Issue) -> u128 {
    |i: Issue| i.id
}

/// Whether an event belongs to the issue `issue_id`.
pub open spec fn event_of(issue_id: u128) -> spec_fn(IssueEvent) -> bool {
    |e: IssueEvent| e.issue_id == issue_id
}

/// The answer to a lookup of issue `id` among `issues`.
pub open spec fn issue_lookup(issues: Seq<Issue>, id: u128) -> Result<Issue, IssueError> {
    match find_by_id(issues, issue_key(), id) {
        Some(i) => Ok(i),
        None => Err(IssueError::NotFound(id)),
    }
}

/// The issue `i` with status `status`, last updated at `at`.
pub open spec fn with_status(i: Issue, status: String, at: crate::ids::Timestamp) -> Issue {
    Issue { status: status, updated_at: at, ..i }
}

/// The status that a new issue starts in.
pub open spec fn initial_status() -> Seq<char> {
    "backlog"@
}

/// An issue store's contents.
pub struct IssueStoreView {
    pub issues: Seq<Issue>,
    pub events: Seq<IssueEvent>,
}

/// Issues and their status events kept in memory.
pub struct InMemoryIssueStore {
    issues: Vec<Issue>,
    events: Vec<IssueEvent>,
}

impl View for InMemoryIssueStore {
    type V = IssueStoreView;

    closed spec fn view(&self) -> IssueStoreView {
        IssueStoreView { issues: self.issues@, events: self.events@ }
    }
}

impl IssueStore for InMemoryIssueStore {}

/// The position of the first issue with identifier `id`.
fn issue_position(issues: &Vec<Issue>, id: u128) -> (r: Option<usize>)
    ensures
        r is Some <==> index_of_id(issues@, issue_key(), id) >= 0,
        r matches Some(k) ==> k == index_of_id(issues@, issue_key(), id) && k < issues@.len(),
{
    proof {
        lemma_index_of_id(issues@, issue_key(), id);
    }
    let mut i: usize = 0;
    while i < issues.len()
        invariant
            i <= issues.len(),
            forall|j: int| 0 <= j < i ==> (#[trigger] issues@[j]).id != id,
        decreases issues.len() - i,
    {
        if issues[i].id == id {
            proof {
                lemma_index_of_id(issues@, issue_key(), id);
                let k = index_of_id(issues@, issue_key(), id);
                if k >= 0 && k < i {
                    assert(issues@[k].id != id);
                }
                assert(k == i);
            }
            return Some(i);
        }
        i = i + 1;
    }
    proof {
        lemma_index_of_id(issues@, issue_key(), id);
        let k = index_of_id(issues@, issue_key(), id);
        if k >= 0 {
            assert(issues@[k].id != id);
        }
    }
    None
}

impl InMemoryIssueStore {
    /// An empty store.
    pub fn new() -> (s: Self)
        ensures
            s@.issues == Seq::<Issue>::empty(),
            s@.events == Seq::<IssueEvent>::empty(),
    {
        InMemoryIssueStore { issues: Vec::new(), events: Vec::new() }
    }

    /// All issues, in the order of creation.
    pub fn list_issues(&self) -> (r: Result<Vec<Issue>, IssueError>)
        ensures
            r matches Ok(v) && v@ == self@.issues,
    {
        let mut out: Vec<Issue> = Vec::new();
        let mut i: usize = 0;
        while i < self.issues.len()
            invariant
                i <= self.issues.len(),
                out@ == self.issues@.take(i as int),
            decreases self.issues.len() - i,
        {
            out.push(self.issues[i].clone());
            assert(self.issues@.take(i + 1) == self.issues@.take(i as int).push(self.issues@[i as int]));
            i = i + 1;
        }
        assert(self.issues@.take(self.issues.len() as int) == self.issues@);
        Ok(out)
    }

    /// The first issue with identifier `id`, or `NotFound(id)`.
    pub fn get_issue(&self, id: u128) -> (r: Result<Issue, IssueError>)
        ensures
            r == issue_lookup(self@.issues, id),
    {
        proof {
            lemma_index_of_id(self.issues@, issue_key(), id);
        }
        match issue_position(&self.issues, id) {
            Some(k) => Ok(self.issues[k].clone()),
            None => Err(IssueError::NotFound(id)),
        }
    }

    /// Creates an issue in status `backlog`, with no assignee, created and
    /// updated now, and appends it to the issues.
    pub fn create_issue(&mut self, title: String, description: String) -> (r: Result<
        Issue,
        IssueError,
    >)
        ensures
            r matches Ok(i) && {
                &&& is_random_uuid(i.id)
                &&& forall|j: int| 0 <= j < old(self)@.issues.len()
                    ==> (#[trigger] old(self)@.issues[j]).id != i.id
                &&& issue_lookup(final(self)@.issues, i.id) == Ok::<Issue, IssueError>(i)
                &&& i.title == title
                &&& i.description == description
                &&& i.status@ == initial_status()
                &&& i.assignee is None
                &&& i.updated_at == i.created_at
                &&& final(self)@.issues == old(self)@.issues.push(i)
                &&& final(self)@.events == old(self)@.events
            },
    {
        let at = now();
        let id = fresh_among(&self.issues);
        let issue = Issue {
            id,
            title,
            description,
            status: "backlog".to_owned(),
            assignee: None,
            created_at: at,
            updated_at: at,
        };
        self.issues.push(issue.clone());
        proof {
            law_issue_read_after_create(old(self)@.issues, issue, id);
        }
        Ok(issue)
    }

    /// Moves issue `id` to `status` and records the change as an event with
    /// the status before and after and the note. The issue's `updated_at`
    /// and the event's time are two readings of the clock taken during the
    /// call. An unknown issue is answered with `NotFound(id)` and changes
    /// nothing.
    pub fn update_issue_status(&mut self, id: u128, status: String, note: Option<String>) -> (r:
        Result<IssueEvent, IssueError>)
        ensures
            ({
                let k = index_of_id(old(self)@.issues, issue_key(), id);
                if k < 0 {
                    &&& r == Err::<IssueEvent, IssueError>(IssueError::NotFound(id))
                    &&& final(self)@ == old(self)@
                } else {
                    r matches Ok(e) && {
                        &&& is_random_uuid(e.id)
                        &&& forall|j: int| 0 <= j < old(self)@.events.len()
                            ==> (#[trigger] old(self)@.events[j]).id != e.id
                        &&& e.issue_id == id
                        &&& e.from_status == old(self)@.issues[k].status
                        &&& e.to_status == status
                        &&& e.note == note
                        &&& final(self)@.issues == old(self)@.issues.update(
                            k,
                            with_status(old(self)@.issues[k], status, final(self)@.issues[k].updated_at),
                        )
                        &&& final(self)@.events == old(self)@.events.push(e)
                    }
                }
            }),
    {
        proof {
            lemma_index_of_id(self.issues@, issue_key(), id);
        }
        let updated_at = now();
        let recorded_at = now();
        let r = self.update_issue_status_at(id, status, note, updated_at, recorded_at);
        proof {
            let k = index_of_id(old(self)@.issues, issue_key(), id);
            if k >= 0 {
                assert(self.issues@[k].updated_at == updated_at);
            }
        }
        r
    }

    /// The status change of `update_issue_status`, with the clock readings
    /// given: the issue is updated at `updated_at` and the event is recorded
    /// at `recorded_at`.
    pub fn update_issue_status_at(
        &mut self,
        id: u128,
        status: String,
        note: Option<String>,
        updated_at: Timestamp,
        recorded_at: Timestamp,
    ) -> (r: Result<IssueEvent, IssueError>)
        ensures
            ({
                let k = index_of_id(old(self)@.issues, issue_key(), id);
                if k < 0 {
                    &&& r == Err::<IssueEvent, IssueError>(IssueError::NotFound(id))
                    &&& final(self)@ == old(self)@
                } else {
                    r matches Ok(e) && {
                        &&& is_random_uuid(e.id)
                        &&& forall|j: int| 0 <= j < old(self)@.events.len()
                            ==> (#[trigger] old(self)@.events[j]).id != e.id
                        &&& e.timestamp == recorded_at
                        &&& e.issue_id == id
                        &&& e.from_status == old(self)@.issues[k].status
                        &&& e.to_status == status
                        &&& e.note == note
                        &&& final(self)@.issues == old(self)@.issues.update(
                            k,
                            with_status(old(self)@.issues[k], status, updated_at),
                        )
                        &&& final(self)@.events == old(self)@.events.push(e)
                    }
                }
            }),
    {
        proof {
            lemma_index_of_id(self.issues@, issue_key(), id);
        }
        match issue_position(&self.issues, id) {
            None => Err(IssueError::NotFound(id)),
            Some(k) => {
                let from_status = self.issues[k].status.clone();
                let updated = Issue {
                    id: self.issues[k].id,
                    title: self.issues[k].title.clone(),
                    description: self.issues[k].description.clone(),
                    status: status.clone(),
                    assignee: clone_opt_string(&self.issues[k].assignee),
                    created_at: self.issues[k].created_at,
                    updated_at,
                };
                assert(updated == with_status(old(self)@.issues[k as int], status, updated_at));
                self.issues.set(k, updated);
                let event = IssueEvent {
                    id: fresh_among(&self.events),
                    issue_id: id,
                    from_status,
                    to_status: status,
                    note,
                    timestamp: recorded_at,
                };
                self.events.push(event.clone());
                Ok(event)
            },
        }
    }

    /// The events of issue `issue_id`, oldest first.
    pub fn list_events(&self, issue_id: u128) -> (r: Result<Vec<IssueEvent>, IssueError>)
        ensures
            r matches Ok(v) && v@ == self@.events.filter(event_of(issue_id)),
    {
        let ghost pred = event_of(issue_id);
        let mut out: Vec<IssueEvent> = Vec::new();
        let mut i: usize = 0;
        while i < self.events.len()
            invariant
                i <= self.events.len(),
                pred == event_of(issue_id),
                out@ == self.events@.take(i as int).filter(pred),
            decreases self.events.len() - i,
        {
            proof {
                assert(self.events@.take(i + 1) == self.events@.take(i as int).push(self.events@[i as int]));
                lemma_filter_after_push(self.events@.take(i as int), pred, self.events@[i as int]);
            }
            if self.events[i].issue_id == issue_id {
                out.push(self.events[i].clone());
            }
            i = i + 1;
        }
        assert(self.events@.take(self.events.len() as int) == self.events@);
        Ok(out)
    }
}

// ---------------------------------------------------------------------------
// Artifacts
// ---------------------------------------------------------------------------

/// The identifier of an artifact.
pub open spec fn artifact_key() -> spec_fn(Artifact) -> u128 {
    |a: Artifact| a.id
}

/// The answer to a lookup of artifact `id` among `artifacts`.
pub open spec fn artifact_lookup(artifacts: Seq<Artifact>, id: u128) -> Result<Artifact, ArtifactError> {
    match find_by_id(artifacts, artifact_key(), id) {
        Some(a) => Ok(a),
        None => Err(ArtifactError::NotFound(id)),
    }
}

/// Artifacts kept in memory; each create adds a new artifact, so the versions
/// of one document stand side by side.
pub struct InMemoryArtifactStore {
    artifacts: Vec<Artifact>,
}

impl View for InMemoryArtifactStore {
    type V = Seq<Artifact>;

    closed spec fn view(&self) -> Seq<Artifact> {
        self.artifacts@
    }
}

impl ArtifactStore for InMemoryArtifactStore {}

impl InMemoryArtifactStore {
    /// An empty store.
    pub fn new() -> (s: Self)
        ensures
            s@ == Seq::<Artifact>::empty(),
    {
        InMemoryArtifactStore { artifacts: Vec::new() }
    }

    /// All artifacts, in the order of creation.
    pub fn list_artifacts(&self) -> (r: Result<Vec<Artifact>, ArtifactError>)
        ensures
            r matches Ok(v) && v@ == self@,
    {
        let mut out: Vec<Artifact> = Vec::new();
        let mut i: usize = 0;
        while i < self.artifacts.len()
            invariant
                i <= self.artifacts.len(),
                out@ == self.artifacts@.take(i as int),
            decreases self.artifacts.len() - i,
        {
            out.push(self.artifacts[i].clone());
            assert(self.artifacts@.take(i + 1) == self.artifacts@.take(i as int).push(
                self.artifacts@[i as int],
            ));
            i = i + 1;
        }
        assert(self.artifacts@.take(self.artifacts.len() as int) == self.artifacts@);
        Ok(out)
    }

    /// The first artifact with identifier `id`, or `NotFound(id)`.
    pub fn get_artifact(&self, id: u128) -> (r: Result<Artifact, ArtifactError>)
        ensures
            r == artifact_lookup(self@, id),
    {
        proof {
            lemma_index_of_id(self.artifacts@, artifact_key(), id);
        }
        let mut i: usize = 0;
        while i < self.artifacts.len()
            invariant
                i <= self.artifacts.len(),
                forall|j: int| 0 <= j < i ==> (#[trigger] self.artifacts@[j]).id != id,
            decreases self.artifacts.len() - i,
        {
            if self.artifacts[i].id == id {
                proof {
                    lemma_index_of_id(self.artifacts@, artifact_key(), id);
                    let k = index_of_id(self.artifacts@, artifact_key(), id);
                    if k >= 0 && k < i {
                        assert(self.artifacts@[k].id != id);
                    }
                    assert(k == i);
                }
                return Ok(self.artifacts[i].clone());
            }
            i = i + 1;
        }
        proof {
            lemma_index_of_id(self.artifacts@, artifact_key(), id);
            let k = index_of_id(self.artifacts@, artifact_key(), id);
            if k >= 0 {
                assert(self.artifacts@[k].id != id);
            }
        }
        Err(ArtifactError::NotFound(id))
    }

    /// Creates an artifact with a fresh identifier and the current time, and
    /// appends it; artifacts created before are kept as they are.
    pub fn create_artifact(
        &mut self,
        name: String,
        version: String,
        source_type: String,
        source_location: String,
        content_type: String,
    ) -> (r: Result<Artifact, ArtifactError>)
        ensures
            r matches Ok(a) && {
                &&& is_random_uuid(a.id)
                &&& forall|i: int| 0 <= i < old(self)@.len() ==> (#[trigger] old(self)@[i]).id != a.id
                &&& artifact_lookup(final(self)@, a.id) == Ok::<Artifact, ArtifactError>(a)
                &&& a.name == name
                &&& a.version == version
                &&& a.source_type == source_type
                &&& a.source_location == source_location
                &&& a.content_type == content_type
                &&& final(self)@ == old(self)@.push(a)
            },
    {
        let id = fresh_among(&self.artifacts);
        let artifact = Artifact {
            id,
            name,
            version,
            source_type,
            source_location,
            content_type,
            created_at: now(),
        };
        self.artifacts.push(artifact.clone());
        proof {
            law_artifact_read_after_create(old(self)@, artifact, id);
        }
        Ok(artifact)
    }
}

// ---------------------------------------------------------------------------
// Laws of the stores
// ---------------------------------------------------------------------------

/// Lookups after appending an element whose key no element had: the new key
/// finds the new element, every other key finds what it found before.
pub proof fn lemma_find_after_fresh_push<T>(s: Seq<T>, key: spec_fn(T) -> u128, x: T, id: u128)
    requires
        forall|i: int| 0 <= i < s.len() ==> key(#[trigger] s[i]) != key(x),
    ensures
        find_by_id(s.push(x), key, id) == (if id == key(x) {
            Some(x)
        } else {
            find_by_id(s, key, id)
        }),
{
    lemma_index_of_id(s, key, id);
    lemma_find_after_push(s, key, x, id);
    if id == key(x) {
        let k = index_of_id(s, key, id);
        if k >= 0 {
            assert(key(s[k]) != key(x));
        }
    }
}

/// A lookup finds nothing exactly where no element has the key.
pub proof fn lemma_find_none<T>(s: Seq<T>, key: spec_fn(T) -> u128, id: u128)
    ensures
        find_by_id(s, key, id) is None <==> forall|i: int| 0 <= i < s.len() ==> key(#[trigger] s[i]) != id,
{
    lemma_index_of_id(s, key, id);
    let k = index_of_id(s, key, id);
    if k >= 0 {
        assert(key(s[k]) == id);
    }
}

/// Read after create: once a channel with a new identifier is created, a
/// lookup of that identifier gives the channel, and a lookup of any other
/// identifier gives what it gave before.
pub proof fn law_channel_read_after_create(channels: Seq<Channel>, c: Channel, id: u128)
    requires
        forall|i: int| 0 <= i < channels.len() ==> (#[trigger] channels[i]).id != c.id,
    ensures
        channel_lookup(channels.push(c), id) == (if id == c.id {
            Ok::<Channel, ChannelError>(c)
        } else {
            channel_lookup(channels, id)
        }),
{
    assert forall|i: int| 0 <= i < channels.len() implies channel_key()(#[trigger] channels[i])
        != channel_key()(c) by {}
    lemma_find_after_fresh_push(channels, channel_key(), c, id);
}

/// A lookup of a channel is answered with `NotFound(id)` exactly where no
/// channel has identifier `id`.
pub proof fn law_channel_unknown_not_found(channels: Seq<Channel>, id: u128)
    ensures
        channel_lookup(channels, id) == Err::<Channel, ChannelError>(ChannelError::NotFound(id))
            <==> forall|i: int| 0 <= i < channels.len() ==> (#[trigger] channels[i]).id != id,
{
    lemma_find_none(channels, channel_key(), id);
    assert(forall|i: int| 0 <= i < channels.len() ==> channel_key()(#[trigger] channels[i])
        == channels[i].id);
}

/// Read after create for threads: a new thread is found by its identifier,
/// other lookups are unchanged.
pub proof fn law_thread_read_after_create(threads: Seq<Thread>, t: Thread, id: u128)
    requires
        forall|i: int| 0 <= i < threads.len() ==> (#[trigger] threads[i]).id != t.id,
    ensures
        thread_lookup(threads.push(t), id) == (if id == t.id {
            Ok::<Thread, ChannelError>(t)
        } else {
            thread_lookup(threads, id)
        }),
{
    assert forall|i: int| 0 <= i < threads.len() implies thread_key()(#[trigger] threads[i])
        != thread_key()(t) by {}
    lemma_find_after_fresh_push(threads, thread_key(), t, id);
}

/// The threads listed for a channel after a thread is created: the new
/// thread is added at the end for its own channel, and the listing of every
/// other channel is unchanged.
pub proof fn law_threads_after_create(threads: Seq<Thread>, t: Thread, channel_id: u128)
    ensures
        threads.push(t).filter(thread_in(channel_id)) == (if t.channel_id == channel_id {
            threads.filter(thread_in(channel_id)).push(t)
        } else {
            threads.filter(thread_in(channel_id))
        }),
{
    lemma_filter_after_push(threads, thread_in(channel_id), t);
}

/// The posts listed for a thread after a post is created: the new post is
/// added at the end for its own thread, and every other thread's listing is
/// unchanged.
pub proof fn law_posts_after_create(posts: Seq<Post>, p: Post, thread_id: u128)
    ensures
        posts.push(p).filter(post_in(thread_id)) == (if p.thread_id == thread_id {
            posts.filter(post_in(thread_id)).push(p)
        } else {
            posts.filter(post_in(thread_id))
        }),
{
    lemma_filter_after_push(posts, post_in(thread_id), p);
}

/// Read after create for issues: a new issue is found by its identifier,
/// other lookups are unchanged.
pub proof fn law_issue_read_after_create(issues: Seq<Issue>, i: Issue, id: u128)
    requires
        forall|j: int| 0 <= j < issues.len() ==> (#[trigger] issues[j]).id != i.id,
    ensures
        issue_lookup(issues.push(i), id) == (if id == i.id {
            Ok::<Issue, IssueError>(i)
        } else {
            issue_lookup(issues, id)
        }),
{
    assert forall|j: int| 0 <= j < issues.len() implies issue_key()(#[trigger] issues[j])
        != issue_key()(i) by {}
    lemma_find_after_fresh_push(issues, issue_key(), i, id);
}

/// A lookup of an issue is answered with `NotFound(id)` exactly where no
/// issue has identifier `id`.
pub proof fn law_issue_unknown_not_found(issues: Seq<Issue>, id: u128)
    ensures
        issue_lookup(issues, id) == Err::<Issue, IssueError>(IssueError::NotFound(id))
            <==> forall|j: int| 0 <= j < issues.len() ==> (#[trigger] issues[j]).id != id,
{
    lemma_find_none(issues, issue_key(), id);
    assert(forall|j: int| 0 <= j < issues.len() ==> issue_key()(#[trigger] issues[j])
        == issues[j].id);
}

/// Read after a status change: the changed issue is found at the same place
/// with the new status, so a lookup shows that status and the next change
/// of the issue starts from it.
pub proof fn law_issue_status_change(
    issues: Seq<Issue>,
    id: u128,
    status: String,
    at: crate::ids::Timestamp,
)
    requires
        index_of_id(issues, issue_key(), id) >= 0,
    ensures
        ({
            let k = index_of_id(issues, issue_key(), id);
            let after = issues.update(k, with_status(issues[k], status, at));
            &&& index_of_id(after, issue_key(), id) == k
            &&& issue_lookup(after, id) == Ok::<Issue, IssueError>(with_status(issues[k], status, at))
            &&& after[k].status == status
        }),
{
    let k = index_of_id(issues, issue_key(), id);
    lemma_index_of_id(issues, issue_key(), id);
    lemma_find_after_update(issues, issue_key(), id, with_status(issues[k], status, at));
}

/// The events listed for an issue after a status change: the new event is
/// added at the end for its own issue, and every other issue's events are
/// unchanged.
pub proof fn law_events_after_change(events: Seq<IssueEvent>, e: IssueEvent, issue_id: u128)
    ensures
        events.push(e).filter(event_of(issue_id)) == (if e.issue_id == issue_id {
            events.filter(event_of(issue_id)).push(e)
        } else {
            events.filter(event_of(issue_id))
        }),
{
    lemma_filter_after_push(events, event_of(issue_id), e);
}

/// Read after create for artifacts: a new artifact is found by its
/// identifier, other lookups (earlier versions among them) are unchanged.
pub proof fn law_artifact_read_after_create(artifacts: Seq<Artifact>, a: Artifact, id: u128)
    requires
        forall|i: int| 0 <= i < artifacts.len() ==> (#[trigger] artifacts[i]).id != a.id,
    ensures
        artifact_lookup(artifacts.push(a), id) == (if id == a.id {
            Ok::<Artifact, ArtifactError>(a)
        } else {
            artifact_lookup(artifacts, id)
        }),
{
    assert forall|i: int| 0 <= i < artifacts.len() implies artifact_key()(#[trigger] artifacts[i])
        != artifact_key()(a) by {}
    lemma_find_after_fresh_push(artifacts, artifact_key(), a, id);
}

/// A lookup of an artifact is answered with `NotFound(id)` exactly where no
/// artifact has identifier `id`.
pub proof fn law_artifact_unknown_not_found(artifacts: Seq<Artifact>, id: u128)
    ensures
        artifact_lookup(artifacts, id) == Err::<Artifact, ArtifactError>(ArtifactError::NotFound(id))
            <==> forall|i: int| 0 <= i < artifacts.len() ==> (#[trigger] artifacts[i]).id != id,
{
    lemma_find_none(artifacts, artifact_key(), id);
    assert(forall|i: int| 0 <= i < artifacts.len() ==> artifact_key()(#[trigger] artifacts[i])
        == artifacts[i].id);
}

} // verus!
