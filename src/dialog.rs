//! The dialog bridge: what an open or save panel reports once dismissed, and
//! the one-shot guard around its completion handler.
use vstd::prelude::*;
use crate::text::strip_prefix;

verus! {

/// The scheme prefix of a URL that names a local file.
pub open spec fn file_scheme() -> Seq<char> {
    seq!['f', 'i', 'l', 'e', ':', '/', '/']
}

/// The local path that a URL names: what follows the file scheme; none for
/// any other URL.
pub open spec fn url_path(url: Seq<char>) -> Option<Seq<char>> {
    if file_scheme().len() <= url.len() && url.take(file_scheme().len() as int) == file_scheme() {
        Some(url.skip(file_scheme().len() as int))
    } else {
        None
    }
}

/// The local paths of a list of URLs, in order; URLs that name no local file
/// are dropped.
pub open spec fn url_paths(urls: Seq<Seq<char>>) -> Seq<Seq<char>>
    decreases urls.len(),
{
    if urls.len() == 0 {
        Seq::empty()
    } else {
        let rest = url_paths(urls.drop_last());
        match url_path(urls.last()) {
            Some(p) => rest.push(p),
            None => rest,
        }
    }
}

/// What an open panel reports: the paths of the chosen URLs where the user
/// confirmed, and nothing where the panel was dismissed.
pub open spec fn open_panel_outcome(confirmed: bool, urls: Seq<Seq<char>>) -> Option<
    Seq<Seq<char>>,
> {
    if confirmed {
        Some(url_paths(urls))
    } else {
        None
    }
}

/// What a save panel reports: the chosen path where the user confirmed and
/// the URL names a local file, and nothing otherwise.
pub open spec fn save_panel_outcome(confirmed: bool, url: Seq<char>) -> Option<Seq<char>> {
    if confirmed {
        url_path(url)
    } else {
        None
    }
}

pub open spec fn option_string_view(s: Option<String>) -> Option<Seq<char>> {
    match s {
        Some(s) => Some(s@),
        None => None,
    }
}

pub open spec fn option_strings_view(s: Option<Vec<String>>) -> Option<Seq<Seq<char>>> {
    match s {
        Some(v) => Some(v@.map_values(|p: String| p@)),
        None => None,
    }
}

/// The local path of a URL, if it is a file URL.
pub fn url_to_path(url: &str) -> (r: Option<String>)
    ensures
        option_string_view(r) == url_path(url@),
{
    let prefix = "file://";
    proof {
        reveal_strlit("file://");
        assert(prefix@ =~= file_scheme());
    }
    strip_prefix(url, prefix)
}

/// The local paths of the URLs, in order; other URLs are dropped.
pub fn urls_to_paths(urls: &Vec<String>) -> (r: Vec<String>)
    ensures
        r@.map_values(|p: String| p@) == url_paths(urls@.map_values(|u: String| u@)),
{
    let ghost views = urls@.map_values(|u: String| u@);
    let mut out: Vec<String> = Vec::new();
    let mut i: usize = 0;
    while i < urls.len()
        invariant
            i <= urls@.len(),
            views == urls@.map_values(|u: String| u@),
            out@.map_values(|p: String| p@) == url_paths(views.take(i as int)),
        decreases urls@.len() - i,
    {
        assert(views.take(i as int + 1).drop_last() =~= views.take(i as int));
        match url_to_path(urls[i].as_str()) {
            Some(path) => {
                out.push(path);
                assert(out@.map_values(|p: String| p@) =~= url_paths(views.take(i as int + 1)));
            },
            None => {},
        }
        i = i + 1;
    }
    assert(views.take(urls@.len() as int) =~= views);
    out
}

/// The result that an open panel hands to its completion handler.
pub fn open_panel_result(confirmed: bool, urls: &Vec<String>) -> (r: Option<Vec<String>>)
    ensures
        option_strings_view(r) == open_panel_outcome(
            confirmed,
            urls@.map_values(|u: String| u@),
        ),
{
    if confirmed {
        Some(urls_to_paths(urls))
    } else {
        None
    }
}

/// The result that a save panel hands to its completion handler.
pub fn save_panel_result(confirmed: bool, url: &str) -> (r: Option<String>)
    ensures
        option_string_view(r) == save_panel_outcome(confirmed, url@),
{
    if confirmed {
        url_to_path(url)
    } else {
        None
    }
}

/// Holds a dialog's completion handler until it is handed out, once.
pub struct DialogCompletion<D> {
    pub done_fn: Option<D>,
}

impl<D> DialogCompletion<D> {
    pub fn new(done_fn: D) -> (r: Self)
        ensures
            r.done_fn == Some(done_fn),
    {
        DialogCompletion { done_fn: Some(done_fn) }
    }

    /// Hands out the handler the first time, and nothing after.
    pub fn complete(&mut self) -> (r: Option<D>)
        ensures
            r == old(self).done_fn,
            final(self).done_fn is None,
    {
        self.done_fn.take()
    }
}

/// A dialog dismissed without confirmation reports nothing, whatever its
/// panel held; its handler is then handed out by the first completion only
/// (see `DialogCompletion::complete`).
pub proof fn lemma_dismissed_dialog(urls: Seq<Seq<char>>, url: Seq<char>)
    ensures
        open_panel_outcome(false, urls) is None,
        save_panel_outcome(false, url) is None,
{
}

} // verus!
