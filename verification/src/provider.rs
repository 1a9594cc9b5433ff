//! Choice of the web search backend from the command line's settings.

use vstd::prelude::*;
use vstd::string::*;
use crate::text::{copy_text, optional_text, same_text, to_lowercase, lowercase_of};

verus! {

/// The settings of one run, as the command line gives them.
#[derive(Debug)]
pub struct Args {
    pub prompt: Option<String>,
    pub model: String,
    pub endpoint: String,
    pub websearch: bool,
    pub search_provider: Option<String>,
    pub brave_api_key: Option<String>,
    pub max_results: usize,
}

/// A web search backend.
#[derive(Debug)]
pub enum Provider {
    /// The scraping backend, which needs no credential.
    DuckDuckGo,
    /// The keyed API backend.
    Brave { api_key: String },
}

/// Why no backend could be chosen.
#[derive(Debug)]
pub enum ProviderError {
    /// The keyed backend was asked for and no key was given.
    MissingCredential,
    /// The name that was asked for is not one of the backends.
    UnknownProvider(String),
}

pub enum ProviderView {
    DuckDuckGo,
    Brave(Seq<char>),
}

pub enum ProviderErrorView {
    MissingCredential,
    UnknownProvider(Seq<char>),
}

impl View for Provider {
    type V = ProviderView;

    open spec fn view(&self) -> ProviderView {
        match self {
            Provider::DuckDuckGo => ProviderView::DuckDuckGo,
            Provider::Brave { api_key } => ProviderView::Brave(api_key@),
        }
    }
}

impl View for ProviderError {
    type V = ProviderErrorView;

    open spec fn view(&self) -> ProviderErrorView {
        match self {
            ProviderError::MissingCredential => ProviderErrorView::MissingCredential,
            ProviderError::UnknownProvider(name) => ProviderErrorView::UnknownProvider(name@),
        }
    }
}

/// The view of a choice or of its failure.
pub open spec fn choice_view(choice: Result<Provider, ProviderError>) -> Result<
    ProviderView,
    ProviderErrorView,
> {
    match choice {
        Ok(p) => Ok(p@),
        Err(e) => Err(e@),
    }
}

/// The backend for a name that is already in lower case, if one was given,
/// and a key, if one is present. A given name decides; without one the keyed
/// backend is taken exactly when there is a key.
pub open spec fn selection(named: Option<Seq<char>>, key: Option<Seq<char>>) -> Result<
    ProviderView,
    ProviderErrorView,
> {
    let name = match named {
        Some(n) => n,
        None => if key is Some {
            "brave"@
        } else {
            "duckduckgo"@
        },
    };
    if name == "duckduckgo"@ {
        Ok(ProviderView::DuckDuckGo)
    } else if name == "brave"@ {
        match key {
            Some(k) => Ok(ProviderView::Brave(k)),
            None => Err(ProviderErrorView::MissingCredential),
        }
    } else {
        Err(ProviderErrorView::UnknownProvider(name))
    }
}

/// The two backend names differ.
pub proof fn backend_names_differ()
    ensures
        "duckduckgo"@ != "brave"@,
{
    reveal_strlit("duckduckgo");
    reveal_strlit("brave");
    assert("duckduckgo"@.len() != "brave"@.len());
}

/// The selection policy, case by case: the scraping backend when it is named,
/// whatever the key, and when nothing is named and no key is present; the
/// keyed backend with its key when a key is present and it is named or
/// nothing is; a missing credential when the keyed backend is named without a
/// key; an unknown provider for every other name.
pub proof fn selection_policy(name: Seq<char>, key: Option<Seq<char>>, secret: Seq<char>)
    ensures
        selection(Some("duckduckgo"@), key) == Ok::<ProviderView, ProviderErrorView>(
            ProviderView::DuckDuckGo,
        ),
        selection(None, None) == Ok::<ProviderView, ProviderErrorView>(ProviderView::DuckDuckGo),
        selection(None, Some(secret)) == Ok::<ProviderView, ProviderErrorView>(
            ProviderView::Brave(secret),
        ),
        selection(Some("brave"@), None) == Err::<ProviderView, ProviderErrorView>(
            ProviderErrorView::MissingCredential,
        ),
        selection(Some("brave"@), Some(secret)) == Ok::<ProviderView, ProviderErrorView>(
            ProviderView::Brave(secret),
        ),
        name != "duckduckgo"@ && name != "brave"@ ==> selection(Some(name), key) == Err::<
            ProviderView,
            ProviderErrorView,
        >(ProviderErrorView::UnknownProvider(name)),
{
    backend_names_differ();
}

/// Chooses the backend for a name in lower case, if one was given, and a
/// key, if one is present.
pub fn select_provider(named: Option<String>, key: &Option<String>) -> (choice: Result<
    Provider,
    ProviderError,
>)
    ensures
        choice_view(choice) == selection(optional_text(named), optional_text(*key)),
{
    let name = match named {
        Some(n) => n,
        None => if key.is_some() {
            copy_text("brave")
        } else {
            copy_text("duckduckgo")
        },
    };
    if same_text(name.as_str(), "duckduckgo") {
        Ok(Provider::DuckDuckGo)
    } else if same_text(name.as_str(), "brave") {
        match key {
            Some(k) => Ok(Provider::Brave { api_key: copy_text(k.as_str()) }),
            None => Err(ProviderError::MissingCredential),
        }
    } else {
        Err(ProviderError::UnknownProvider(name))
    }
}

/// The name that the selection goes by: the one given, in lower case.
pub open spec fn named_backend(search_provider: Option<String>) -> Option<Seq<char>> {
    match search_provider {
        Some(p) => Some(lowercase_of(p@)),
        None => None,
    }
}

/// Chooses the backend for a run: by the provider's name where the settings
/// give one, upper and lower case alike, else by the presence of a key.
pub fn create_search_provider(args: &Args) -> (choice: Result<Provider, ProviderError>)
    ensures
        choice_view(choice) == selection(
            named_backend(args.search_provider),
            optional_text(args.brave_api_key),
        ),
{
    let named = match &args.search_provider {
        Some(p) => Some(to_lowercase(p.as_str())),
        None => None,
    };
    select_provider(named, &args.brave_api_key)
}

impl Provider {
    /// The backend's identifier.
    pub open spec fn spec_name(self) -> Seq<char> {
        match self {
            Provider::DuckDuckGo => "duckduckgo"@,
            Provider::Brave { .. } => "brave"@,
        }
    }

    /// The backend's identifier.
    pub fn name(&self) -> (name: &'static str)
        ensures
            name@ == self.spec_name(),
    {
        match self {
            Provider::DuckDuckGo => "duckduckgo",
            Provider::Brave { .. } => "brave",
        }
    }
}

impl ProviderError {
    /// The error as a line of text.
    pub open spec fn spec_message(self) -> Seq<char> {
        match self {
            ProviderError::MissingCredential =>
                "Brave search provider requires an API key. Provide via --brave-api-key or BRAVE_API_KEY environment variable."@,
            ProviderError::UnknownProvider(name) => "Unknown search provider: '"@ + name@
                + "'. Valid options: duckduckgo, brave"@,
        }
    }

    /// The error as a line of text.
    pub fn message(&self) -> (line: String)
        ensures
            line@ == self.spec_message(),
    {
        match self {
            ProviderError::MissingCredential => copy_text(
                "Brave search provider requires an API key. Provide via --brave-api-key or BRAVE_API_KEY environment variable.",
            ),
            ProviderError::UnknownProvider(name) => {
                let mut line = copy_text("Unknown search provider: '");
                line.append(name.as_str());
                line.append("'. Valid options: duckduckgo, brave");
                line
            },
        }
    }
}

} // verus!
