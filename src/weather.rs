//! The weather query: the request for a place and the failures it can meet.
use vstd::prelude::*;
use vstd::string::*;

verus! {

/// The address of the current-weather query for a city and a country code,
/// in metric units, authorised by `api_key`.
pub open spec fn request_url_text(city: Seq<char>, country_code: Seq<char>, api_key: Seq<char>) -> Seq<char> {
    "https://api.openweathermap.org/data/2.5/weather?q="@ + city + ","@ + country_code
        + "&units=metric&appid="@ + api_key
}

/// Builds the address of the query for `city` and `country_code`.
pub fn request_url(city: &str, country_code: &str, api_key: &str) -> (r: String)
    ensures
        r@ == request_url_text(city@, country_code@, api_key@),
{
    let mut url = String::from_str("https://api.openweathermap.org/data/2.5/weather?q=");
    url.append(city);
    url.append(",");
    url.append(country_code);
    url.append("&units=metric&appid=");
    url.append(api_key);
    url
}

/// A failed query: the network failed, the status was not a success, or the
/// body did not have the expected shape. Only the message is kept.
pub struct FetchError {
    pub message: String,
}

/// Why no API key can be used.
#[derive(Clone, Copy, Debug, PartialEq, Eq, Structural)]
pub enum KeyError {
    /// No key was configured.
    Unset,
    /// The configured key is empty.
    Blank,
}

/// The API key to use, from the configured value if there is one: a missing
/// or empty value is refused rather than sent.
pub fn api_key_from(configured: Option<String>) -> (r: Result<String, KeyError>)
    ensures
        configured is None ==> r == Err::<String, KeyError>(KeyError::Unset),
        configured is Some && configured->Some_0@.len() == 0 ==> r == Err::<String, KeyError>(
            KeyError::Blank,
        ),
        configured is Some && configured->Some_0@.len() > 0 ==> r is Ok && r->Ok_0@
            == configured->Some_0@,
{
    match configured {
        None => Err(KeyError::Unset),
        Some(k) => {
            if k.as_str().unicode_len() == 0 {
                Err(KeyError::Blank)
            } else {
                Ok(k)
            }
        },
    }
}

} // verus!
