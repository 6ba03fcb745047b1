//! Pages and the page-server builder.
//!
//! The builder collects pages keyed by their route. Serving itself —
//! sockets, HTTP, compression — is outside this library; the route
//! lookup that decides what a request receives is here, verified.

use vstd::prelude::*;

verus! {

/// One page of content, addressed by a route.
#[derive(Clone)]
pub struct Page {
    path: Option<String>,
    content: String,
}

impl Page {
    /// The content as a sequence of characters.
    pub closed spec fn content_view(&self) -> Seq<char> {
        self.content@
    }

    /// The path, if one was set.
    pub closed spec fn path_view(&self) -> Option<Seq<char>> {
        match self.path {
            Some(p) => Some(p@),
            None => None,
        }
    }

    /// A new page with empty content and no path.
    pub fn new() -> (r: Self)
        ensures
            r.content_view() == Seq::<char>::empty(),
            r.path_view() is None,
    {
        Self { path: None, content: String::new() }
    }

    /// Replaces the content of the page.
    pub fn with_content(self, content: String) -> (r: Self)
        ensures
            r.content_view() == content@,
            r.path_view() == self.path_view(),
    {
        Self { path: self.path, content }
    }

    /// Read access to the content.
    pub fn content(&self) -> (r: &String)
        ensures
            r@ == self.content_view(),
    {
        &self.content
    }
}

/// Why a builder call was refused.
#[derive(Copy, Clone, Debug, PartialEq, Eq, Structural)]
pub enum ServerError {
    /// A page is already registered under the given path.
    PageExists,
    /// No page is registered at the root path "/".
    NoRootPage,
}

/// The outcome of a builder call.
pub type Res = Result<ServerBuilder, ServerError>;

/// First-match lookup in a page list: the page stored under the given
/// path, if any.
pub open spec fn spec_lookup(ps: Seq<(String, Page)>, path: Seq<char>) -> Option<Page>
    decreases ps.len(),
{
    if ps.len() == 0 {
        None
    } else if ps[0].0@ == path {
        Some(ps[0].1)
    } else {
        spec_lookup(ps.drop_first(), path)
    }
}

/// A builder for a page server.
pub struct ServerBuilder {
    port: u16,
    is_https: bool,
    dev_mode: bool,
    content_limit: u64,
    pages: Vec<(String, Page)>,
}

impl ServerBuilder {
    /// The configured port.
    pub closed spec fn spec_port(&self) -> u16 {
        self.port
    }

    /// Whether HTTPS is configured.
    pub closed spec fn spec_is_https(&self) -> bool {
        self.is_https
    }

    /// Whether the server would bind to the loopback address.
    pub closed spec fn spec_dev_mode(&self) -> bool {
        self.dev_mode
    }

    /// The configured request content limit, in bytes.
    pub closed spec fn spec_content_limit(&self) -> u64 {
        self.content_limit
    }

    /// The registered pages, in registration order.
    pub closed spec fn spec_pages(&self) -> Seq<(String, Page)> {
        self.pages@
    }

    /// Each path is registered at most once.
    pub open spec fn wf(&self) -> bool {
        forall|i: int, j: int|
            0 <= i < j < self.spec_pages().len() ==> (#[trigger] self.spec_pages()[i]).0@ != (
            #[trigger] self.spec_pages()[j]).0@
    }

    /// Create a new server builder.
    pub fn new() -> (r: Self)
        ensures
            r.spec_port() == 3000,
            r.spec_content_limit() == 10485760,
            !r.spec_is_https(),
            r.spec_dev_mode(),
            r.spec_pages() == Seq::<(String, Page)>::empty(),
            r.wf(),
    {
        let r = Self {
            port: 3000,
            content_limit: 1024 * 1024 * 10,  // 10MB
            is_https: false,
            dev_mode: true,
            pages: Vec::new(),
        };
        proof {
            assert(r.spec_pages() =~= Seq::<(String, Page)>::empty());
        }
        r
    }

    /// Set the port for the server.
    pub fn with_port(self, port: u16) -> (r: Res)
        ensures
            r matches Ok(b) && b.spec_port() == port && b.spec_is_https() == self.spec_is_https()
                && b.spec_dev_mode() == self.spec_dev_mode() && b.spec_content_limit()
                == self.spec_content_limit() && b.spec_pages() == self.spec_pages(),
    {
        Ok(Self { port, ..self })
    }

    /// Set the HTTPS flag for the server.
    pub fn with_https(self, is_https: bool) -> (r: Res)
        ensures
            r matches Ok(b) && b.spec_is_https() == is_https && b.spec_port() == self.spec_port()
                && b.spec_dev_mode() == self.spec_dev_mode() && b.spec_content_limit()
                == self.spec_content_limit() && b.spec_pages() == self.spec_pages(),
    {
        Ok(Self { is_https, ..self })
    }

    /// Set the content limit for requests to the server.
    pub fn with_content_limit(self, content_limit: u64) -> (r: Res)
        ensures
            r matches Ok(b) && b.spec_content_limit() == content_limit && b.spec_port()
                == self.spec_port() && b.spec_is_https() == self.spec_is_https()
                && b.spec_dev_mode() == self.spec_dev_mode() && b.spec_pages()
                == self.spec_pages(),
    {
        Ok(Self { content_limit, ..self })
    }

    /// Add a page to the server. Refused when a page is already
    /// registered under the same path.
    pub fn with_page(self, path: &str, page: Page) -> (r: Res)
        ensures
            spec_lookup(self.spec_pages(), path@) is Some ==> r == Err::<ServerBuilder, ServerError>(
                ServerError::PageExists,
            ),
            spec_lookup(self.spec_pages(), path@) is None ==> (r matches Ok(b) && {
                &&& b.spec_pages().len() == self.spec_pages().len() + 1
                &&& b.spec_pages().last().0@ == path@
                &&& b.spec_pages().last().1 == page
                &&& b.spec_pages().take(self.spec_pages().len() as int) == self.spec_pages()
                &&& b.spec_port() == self.spec_port()
                &&& b.spec_is_https() == self.spec_is_https()
                &&& b.spec_dev_mode() == self.spec_dev_mode()
                &&& b.spec_content_limit() == self.spec_content_limit()
                &&& (self.wf() ==> b.wf())
            }),
    {
        if self.find_page(path).is_some() {
            return Err(ServerError::PageExists);
        }
        let key = path.to_owned();
        let mut pages = self.pages;
        let ghost old_pages = pages@;
        pages.push((key, page));
        let b = Self {
            port: self.port,
            is_https: self.is_https,
            dev_mode: self.dev_mode,
            content_limit: self.content_limit,
            pages,
        };
        proof {
            assert(b.spec_pages().take(old_pages.len() as int) =~= old_pages);
            if self.wf() {
                lemma_lookup_none_no_match(old_pages, path@);
                assert forall|i: int, j: int|
                    0 <= i < j < b.spec_pages().len() implies (#[trigger] b.spec_pages()[i]).0@
                    != (#[trigger] b.spec_pages()[j]).0@ by {
                    if j == old_pages.len() {
                        assert(b.spec_pages()[i] == old_pages[i]);
                    }
                }
            }
        }
        Ok(b)
    }

    /// The index of the page registered under the given path, if any.
    fn find_page(&self, path: &str) -> (r: Option<usize>)
        ensures
            r matches Some(i) ==> i < self.spec_pages().len() && self.spec_pages()[i as int].0@
                == path@ && spec_lookup(self.spec_pages(), path@) == Some(
                self.spec_pages()[i as int].1,
            ),
            r is None ==> spec_lookup(self.spec_pages(), path@) is None,
    {
        let key = path.to_owned();
        let n = self.pages.len();
        let mut i: usize = 0;
        proof {
            assert(self.spec_pages().skip(0) =~= self.spec_pages());
        }
        while i < n
            invariant
                i <= n,
                n == self.spec_pages().len(),
                key@ == path@,
                spec_lookup(self.spec_pages(), path@) == spec_lookup(
                    self.spec_pages().skip(i as int),
                    path@,
                ),
                forall|j: int| 0 <= j < i ==> (#[trigger] self.spec_pages()[j]).0@ != path@,
            decreases n - i,
        {
            proof {
                let ps = self.spec_pages();
                assert(ps.skip(i as int)[0] == ps[i as int]);
                assert(ps.skip(i as int).drop_first() =~= ps.skip(i + 1));
            }
            if self.pages[i].0 == key {
                return Some(i);
            }
            i += 1;
        }
        proof {
            assert(self.spec_pages().skip(n as int) =~= Seq::<(String, Page)>::empty());
        }
        None
    }

    /// The body served for a request path: the content of the page
    /// registered there, or "Not Found".
    pub fn route_content(&self, path: &str) -> (r: String)
        ensures
            r@ == match spec_lookup(self.spec_pages(), path@) {
                Some(p) => p.content_view(),
                None => "Not Found"@,
            },
    {
        match self.find_page(path) {
            Some(i) => self.pages[i].1.content().clone(),
            None => "Not Found".to_owned(),
        }
    }

    /// Checks that a page is registered at the root path, as serving
    /// requires.
    pub fn check_root(&self) -> (r: Result<(), ServerError>)
        ensures
            r is Ok <==> spec_lookup(self.spec_pages(), "/"@) is Some,
            r is Err ==> r == Err::<(), ServerError>(ServerError::NoRootPage),
    {
        match self.find_page("/") {
            Some(_) => Ok(()),
            None => Err(ServerError::NoRootPage),
        }
    }

    /// The configured port.
    pub fn port(&self) -> (r: u16)
        ensures
            r == self.spec_port(),
    {
        self.port
    }

    /// Whether HTTPS is configured.
    pub fn is_https(&self) -> (r: bool)
        ensures
            r == self.spec_is_https(),
    {
        self.is_https
    }

    /// Whether the server would bind to the loopback address.
    pub fn dev_mode(&self) -> (r: bool)
        ensures
            r == self.spec_dev_mode(),
    {
        self.dev_mode
    }

    /// The configured request content limit, in bytes.
    pub fn content_limit(&self) -> (r: u64)
        ensures
            r == self.spec_content_limit(),
    {
        self.content_limit
    }
}

/// When lookup finds nothing, no entry carries the path.
proof fn lemma_lookup_none_no_match(ps: Seq<(String, Page)>, path: Seq<char>)
    requires
        spec_lookup(ps, path) is None,
    ensures
        forall|i: int| 0 <= i < ps.len() ==> (#[trigger] ps[i]).0@ != path,
    decreases ps.len(),
{
    if ps.len() > 0 {
        lemma_lookup_none_no_match(ps.drop_first(), path);
        assert forall|i: int| 0 <= i < ps.len() implies (#[trigger] ps[i]).0@ != path by {
            if i > 0 {
                assert(ps.drop_first()[i - 1] == ps[i]);
            }
        }
    }
}

} // verus!
