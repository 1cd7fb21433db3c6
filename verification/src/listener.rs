//! The address under which the engine is reached.

use vstd::prelude::*;

use crate::error::{Error, ErrorView};

verus! {

/// The address that is advertised where none was given.
pub const DEFAULT_LISTENER: &'static str = "tcp://127.0.0.1/";

/// A URL: its text, and the host and the port that it names.
#[derive(Debug)]
pub struct Listener {
    pub url: String,
    pub host: Option<String>,
    pub port: Option<u16>,
}

impl DeepView for Listener {
    type V = (Seq<char>, Option<Seq<char>>, Option<u16>);

    open spec fn deep_view(&self) -> (Seq<char>, Option<Seq<char>>, Option<u16>) {
        (self.url@, self.host.deep_view(), self.port)
    }
}

/// What `url::Url::parse` makes of a text: the text, host and port of the URL, or the text of the
/// error.
pub uninterp spec fn url_of_text(text: Seq<char>) -> Result<
    (Seq<char>, Option<Seq<char>>, Option<u16>),
    Seq<char>,
>;

/// `url::Url::parse`, with what `as_str`, `host_str` and `port` tell of the URL: [`url_of_text`].
#[verifier::external_body]
fn parse_url(text: &str) -> (parsed: Result<Listener, String>)
    ensures
        match parsed {
            Ok(listener) => url_of_text(text@) == Ok::<_, Seq<char>>(listener.deep_view()),
            Err(fault) => url_of_text(text@) == Err::<
                (Seq<char>, Option<Seq<char>>, Option<u16>),
                _,
            >(fault@),
        },
{
    url::Url::parse(text)
        .map(
            |url|
                Listener {
                    url: url.as_str().to_owned(),
                    host: url.host_str().map(|host| host.to_owned()),
                    port: url.port(),
                },
        )
        .map_err(|fault| fault.to_string())
}

impl Listener {
    /// The URL that a text stands for.
    pub fn parse(text: &str) -> (parsed: Result<Listener, Error>)
        ensures
            match parsed {
                Ok(listener) => url_of_text(text@) == Ok::<_, Seq<char>>(listener.deep_view()),
                Err(error) => error.deep_view() matches ErrorView::Url(fault) && url_of_text(text@)
                    == Err::<(Seq<char>, Option<Seq<char>>, Option<u16>), _>(fault),
            },
    {
        match parse_url(text) {
            Ok(listener) => Ok(listener),
            Err(fault) => Err(Error::Url(fault)),
        }
    }
}

} // verus!
