//! How a resource is watched.

use kube_runtime::watcher as runtime;
use vstd::prelude::*;

verus! {

/// How the watcher relists.
#[derive(Debug, Clone, Copy, PartialEq, Eq, Structural)]
pub enum ListSemantic {
    /// List calls perform a full quorum read for most recent results.
    MostRecent,
    /// List calls return cached results from the API server.
    Any,
}

/// How the watcher fetches the initial list of objects.
#[derive(Debug, Clone, Copy, PartialEq, Eq, Structural)]
pub enum InitialListStrategy {
    /// List first, then watch from the given resource version.
    ListWatch,
    /// Stream the list by a watch call.
    StreamingList,
}

/// The options of a watch.
#[derive(Debug)]
pub struct Config {
    /// A selector to restrict the list of returned objects by their labels.
    pub label_selector: Option<String>,
    /// A selector to restrict the list of returned objects by their fields.
    pub field_selector: Option<String>,
    /// Timeout for the list/watch call, in seconds.
    pub timeout: Option<u32>,
    pub list_semantic: ListSemantic,
    pub initial_list_strategy: InitialListStrategy,
    /// Maximum number of objects retrieved per list call; `None` is unbounded.
    pub page_size: Option<u32>,
    /// Whether watch events of type "BOOKMARK" are enabled.
    pub bookmarks: bool,
}

/// The options that select everything, in pages.
pub open spec fn default_config() -> Config {
    Config {
        label_selector: None,
        field_selector: None,
        timeout: None,
        list_semantic: ListSemantic::MostRecent,
        initial_list_strategy: InitialListStrategy::ListWatch,
        page_size: Some(500),
        bookmarks: true,
    }
}

impl Default for Config {
    fn default() -> (r: Config)
        ensures
            r == default_config(),
    {
        runtime_default()
    }
}

impl Config {
    /// Restricts the watch to the objects whose labels `label_selector` selects.
    pub fn labels(self, label_selector: &str) -> (r: Config)
        ensures
            r.label_selector matches Some(selector) && selector@ == label_selector@,
            r == (Config { label_selector: r.label_selector, ..self }),
    {
        Config { label_selector: Some(label_selector.to_string()), ..self }
    }
}

/// Calls `watcher::Config::default` of kube-runtime, and moves the options over
/// one by one.
///
/// Claimed: the default selects everything, sets no timeout, lists the most
/// recent results first and then watches, in pages of 500, with bookmarks.
#[verifier::external_body]
fn runtime_default() -> (r: Config)
    ensures
        r == default_config(),
{
    let config = runtime::Config::default();
    let list_semantic = match config.list_semantic {
        runtime::ListSemantic::MostRecent => ListSemantic::MostRecent,
        runtime::ListSemantic::Any => ListSemantic::Any,
    };
    let initial_list_strategy = match config.initial_list_strategy {
        runtime::InitialListStrategy::ListWatch => InitialListStrategy::ListWatch,
        runtime::InitialListStrategy::StreamingList => InitialListStrategy::StreamingList,
    };
    let (label_selector, field_selector) = (config.label_selector, config.field_selector);
    let (timeout, page_size, bookmarks) = (config.timeout, config.page_size, config.bookmarks);
    Config { label_selector, field_selector, timeout, list_semantic, initial_list_strategy, page_size, bookmarks }
}

/// By default a watch selects everything, without a timeout, lists the most recent
/// objects before it watches, in pages of 500, and asks for bookmarks.
pub proof fn law_default_selects_everything(config: Config)
    requires
        call_ensures(<Config as Default>::default, (), config),
    ensures
        config.label_selector is None,
        config.field_selector is None,
        config.timeout is None,
        config.list_semantic is MostRecent,
        config.initial_list_strategy is ListWatch,
        config.page_size == Some(500u32),
        config.bookmarks,
{
}

/// A label selector is taken as it is, replaces any other, and changes nothing else.
pub proof fn law_labels_change_nothing_else(config: Config, label_selector: &str, r: Config)
    requires
        call_ensures(Config::labels, (config, label_selector), r),
    ensures
        r.label_selector matches Some(s) && s@ == label_selector@,
        r.field_selector == config.field_selector,
        r.timeout == config.timeout,
        r.list_semantic == config.list_semantic,
        r.initial_list_strategy == config.initial_list_strategy,
        r.page_size == config.page_size,
        r.bookmarks == config.bookmarks,
{
}

} // verus!
