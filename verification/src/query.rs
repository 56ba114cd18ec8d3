//! The inputs of a lookup: a postal code from the command line, a
//! credential from the environment, and the request they make together.

use vstd::prelude::*;
use vstd::string::StringExecFns;
use crate::decimal::{decimal, parse_i32, parsed_i32, push_decimal};
use crate::error::WeatherError;

verus! {

/// One lookup: where, and on whose account. The country is always `us`.
#[derive(Clone, Debug, PartialEq, Eq)]
pub struct WeatherQuery {
    pub postal_code: i32,
    pub api_key: String,
}

/// The postal code that the argument `text` gives, or why it gives none:
/// the text must read as an integer of 32 bits.
pub open spec fn postal_code_of(text: Seq<char>) -> Result<i32, WeatherError> {
    match parsed_i32(text) {
        Some(code) => Ok(code),
        None => Err(WeatherError::InvalidArgument),
    }
}

/// What the inputs resolve to. The postal code is looked at first: it must
/// be there and read as an integer. Then the credential must be there and
/// must not be empty.
pub open spec fn resolution(
    argument: Option<Seq<char>>,
    credential: Option<Seq<char>>,
) -> Result<(i32, Seq<char>), WeatherError> {
    match argument {
        None => Err(WeatherError::InvalidArgument),
        Some(text) => match postal_code_of(text) {
            Err(e) => Err(e),
            Ok(code) => match credential {
                None => Err(WeatherError::MissingCredential),
                Some(key) => if key.len() == 0 {
                    Err(WeatherError::MissingCredential)
                } else {
                    Ok((code, key))
                },
            },
        },
    }
}

/// The first argument after the program's name, if there is one.
pub open spec fn first_argument(args: Seq<String>) -> Option<Seq<char>> {
    if args.len() >= 2 {
        Some(args[1]@)
    } else {
        None
    }
}

/// The characters of a credential, if there is one.
pub open spec fn credential_text(api_key: Option<String>) -> Option<Seq<char>> {
    match api_key {
        Some(key) => Some(key@),
        None => None,
    }
}

/// The country that every lookup is made in.
pub open spec fn country() -> Seq<char> {
    seq!['u', 's']
}

/// The address of the request for `postal_code` on the account `api_key`:
/// the service's address, then the postal code and the country as `zip`
/// and the key as `appid`. The key is put in as it is.
pub open spec fn request_text(postal_code: int, api_key: Seq<char>) -> Seq<char> {
    "https://api.openweathermap.org/data/2.5/weather?zip="@ + decimal(postal_code) + ","@
        + country() + "&appid="@ + api_key
}

/// Reads a postal code from a command-line argument.
pub fn parse_postal_code(text: &str) -> (r: Result<i32, WeatherError>)
    ensures
        r == postal_code_of(text@),
{
    match parse_i32(text) {
        Some(code) => Ok(code),
        None => Err(WeatherError::InvalidArgument),
    }
}

/// Resolves the inputs of a run: `args` as the process got them, the
/// program's name first, and the credential if the environment holds one.
pub fn resolve_query(args: &Vec<String>, api_key: Option<String>) -> (r: Result<
    WeatherQuery,
    WeatherError,
>)
    ensures
        match r {
            Ok(query) => resolution(first_argument(args@), credential_text(api_key)) == Ok::<
                (i32, Seq<char>),
                WeatherError,
            >((query.postal_code, query.api_key@)),
            Err(e) => resolution(first_argument(args@), credential_text(api_key)) == Err::<
                (i32, Seq<char>),
                WeatherError,
            >(e),
        },
{
    if args.len() < 2 {
        return Err(WeatherError::InvalidArgument);
    }
    let postal_code = match parse_postal_code(args[1].as_str()) {
        Ok(code) => code,
        Err(e) => {
            return Err(e);
        },
    };
    match api_key {
        None => Err(WeatherError::MissingCredential),
        Some(key) => {
            if key.as_str().is_empty() {
                Err(WeatherError::MissingCredential)
            } else {
                Ok(WeatherQuery { postal_code, api_key: key })
            }
        },
    }
}

impl WeatherQuery {
    /// The country that every lookup is made in.
    pub fn country_code() -> (code: &'static str)
        ensures
            code@ == country(),
    {
        proof {
            reveal_strlit("us");
        }
        let code = "us";
        assert(code@ =~= country());
        code
    }

    /// The address to request for this lookup.
    pub fn request_url(&self) -> (url: String)
        ensures
            url@ == request_text(self.postal_code as int, self.api_key@),
    {
        let mut url = String::from_str("https://api.openweathermap.org/data/2.5/weather?zip=");
        push_decimal(&mut url, self.postal_code as i64);
        url.append(",");
        url.append(Self::country_code());
        url.append("&appid=");
        url.append(self.api_key.as_str());
        url
    }
}

} // verus!
