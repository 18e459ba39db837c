//! Posts, the people who write them, and the store that keeps them.

use crate::date_time::DateTime;
use crate::dev::db::DevDb;
use bytesize::ByteSize;
use vstd::prelude::*;

verus! {

/// A fediverse address, `@user@host`.
#[derive(Debug)]
pub struct FediAddr {
    pub user: String,
    pub host: String,
}

/// What a [`FediAddr`] says.
pub struct FediAddrView {
    pub user: Seq<char>,
    pub host: Seq<char>,
}

impl View for FediAddr {
    type V = FediAddrView;

    open spec fn view(&self) -> FediAddrView {
        FediAddrView { user: self.user@, host: self.host@ }
    }
}

impl Default for FediAddr {
    fn default() -> (addr: Self)
        ensures
            addr@ == (FediAddrView { user: Seq::empty(), host: Seq::empty() }),
    {
        FediAddr { user: String::new(), host: String::new() }
    }
}

impl Clone for FediAddr {
    fn clone(&self) -> (copy: Self)
        ensures
            copy@ == self@,
    {
        FediAddr { user: self.user.clone(), host: self.host.clone() }
    }
}

impl FediAddrView {
    /// The address as text: an `@`, the user, an `@`, the host.
    pub open spec fn format(&self) -> Seq<char> {
        seq!['@'] + self.user + seq!['@'] + self.host
    }
}

impl FediAddr {
    /// The address as text: an `@`, the user, an `@`, the host.
    pub fn format(&self) -> (text: String)
        ensures
            text@ == self@.format(),
    {
        proof {
            reveal_strlit("@");
            assert("@"@ =~= seq!['@']);
        }
        let mut text = String::from_str("@");
        text.append(self.user.as_str());
        text.append("@");
        text.append(self.host.as_str());
        text
    }
}

/// Who wrote a post.
#[derive(Debug)]
pub struct Author {
    pub fedi_addr: FediAddr,
}

/// What an [`Author`] says.
pub struct AuthorView {
    pub fedi_addr: FediAddrView,
}

impl View for Author {
    type V = AuthorView;

    open spec fn view(&self) -> AuthorView {
        AuthorView { fedi_addr: self.fedi_addr@ }
    }
}

impl Default for Author {
    fn default() -> (author: Self)
        ensures
            author@.fedi_addr == (FediAddrView { user: Seq::empty(), host: Seq::empty() }),
    {
        Author { fedi_addr: FediAddr::default() }
    }
}

impl Clone for Author {
    fn clone(&self) -> (copy: Self)
        ensures
            copy@ == self@,
    {
        Author { fedi_addr: self.fedi_addr.clone() }
    }
}

/// A request to store a post.
#[derive(Debug)]
pub struct CreatePost {
    pub author: Author,
    pub title: String,
    pub body: String,
}

/// What a [`CreatePost`] says.
pub struct CreatePostView {
    pub author: AuthorView,
    pub title: Seq<char>,
    pub body: Seq<char>,
}

impl View for CreatePost {
    type V = CreatePostView;

    open spec fn view(&self) -> CreatePostView {
        CreatePostView { author: self.author@, title: self.title@, body: self.body@ }
    }
}

impl Clone for CreatePost {
    fn clone(&self) -> (copy: Self)
        ensures
            copy@ == self@,
    {
        CreatePost {
            author: self.author.clone(),
            title: self.title.clone(),
            body: self.body.clone(),
        }
    }
}

/// `ByteSize::b(bytes).to_string_as(si_unit)`: a size as people write it,
/// for the log. `bytesize` rounds with the machine's floating-point
/// logarithm, so nothing is claimed of the wording.
#[verifier::external_body]
fn byte_size_string(bytes: u64, si_unit: bool) -> (text: String) {
    ByteSize::b(bytes).to_string_as(si_unit)
}

/// Whether `text` is a wording that `bytesize` gives for a size of `bytes`
/// bytes, in units of 1024.
pub closed spec fn is_byte_size(bytes: u64, text: String) -> bool {
    call_ensures(byte_size_string, (bytes, true), text)
}

impl CreatePost {
    /// The size of the body, in the bytes of its UTF-8 form and in units of
    /// 1024, as people write it: `1.5 kiB`, say. It is meant for the log;
    /// the wording is what `bytesize` makes of that number of bytes, and
    /// nothing more is known of it here.
    pub fn body_size(&self) -> (text: String)
        ensures
            is_byte_size(vstd::utf8::encode_utf8(self.body@).len() as usize as u64, text),
    {
        byte_size_string(self.body.as_str().len() as u64, true)
    }
}

/// A stored post. It is never changed once it is stored.
#[derive(Debug)]
pub struct Post {
    pub author: Author,
    pub created_on: DateTime,
    pub title: String,
    pub body: String,
}

/// What a [`Post`] says.
pub struct PostView {
    pub author: AuthorView,
    pub created_on: DateTime,
    pub title: Seq<char>,
    pub body: Seq<char>,
}

impl View for Post {
    type V = PostView;

    open spec fn view(&self) -> PostView {
        PostView {
            author: self.author@,
            created_on: self.created_on,
            title: self.title@,
            body: self.body@,
        }
    }
}

impl Clone for Post {
    fn clone(&self) -> (copy: Self)
        ensures
            copy@ == self@,
    {
        Post {
            author: self.author.clone(),
            created_on: self.created_on,
            title: self.title.clone(),
            body: self.body.clone(),
        }
    }
}

impl PostView {
    /// Whether the post holds what the request asked to store.
    pub open spec fn answers(&self, request: CreatePostView) -> bool {
        self.author == request.author && self.title == request.title && self.body == request.body
    }
}

/// The posts of a list, each as what it says.
pub open spec fn post_views(posts: Seq<Post>) -> Seq<PostView> {
    Seq::new(posts.len(), |i: int| posts[i]@)
}

/// Why the store could not do what it was asked.
#[derive(Debug)]
pub enum DbError {
    Other(String),
}

/// A store of posts. A store may fail at any request; when it stores a
/// post, the post holds what the request asked for.
pub trait Db: Sized {
    /// Posts of the store, as many and in the order the store sees fit.
    fn posts(&self) -> (listed: Result<Vec<Post>, DbError>);

    /// Stores a post and hands it back with the time it was stored at.
    fn create_post(&mut self, create_post: CreatePost) -> (stored: Result<Post, DbError>)
        ensures
            stored matches Ok(post) ==> post@.answers(create_post@),
    ;
}

/// Which store to use.
#[derive(Debug, Clone, Copy)]
pub struct DbConfig {}

impl Default for DbConfig {
    fn default() -> Self {
        DbConfig {  }
    }
}

impl DbConfig {
    /// The store this configuration asks for: the in-memory one, empty.
    pub fn init(&self) -> (db: DevDb)
        ensures
            db@.len() == 0,
    {
        DevDb::default()
    }
}

} // verus!
