//! The request that creates a paste: the options it is made from, its query
//! parameters and its body.

use vstd::prelude::*;
use vstd::string::*;
use crate::duration::ONE_HUNDRED_YEARS;
use crate::language::{
    extension_of, guess_language, guessed_language, is_language_token,
    lemma_extension_language_is_known, validate_language, LanguageError, LanguageFailure,
};
use crate::text::{decimal_string, decimal_text, option_text};

verus! {

/// The address that pastes are posted to.
pub const API_URL: &'static str = "https://www.pastery.net/api/paste/";

/// Why a set of options was refused.
#[derive(Debug)]
pub enum OptionsError {
    /// The lifetime is longer than a hundred years.
    TooLong { minutes: u32 },
    /// The language is neither a known one nor `autodetect`.
    Language { cause: LanguageError },
}

/// The mathematical content of an `OptionsError`.
pub enum OptionsFailure {
    TooLong { minutes: nat },
    Language { cause: LanguageFailure },
}

impl View for OptionsError {
    type V = OptionsFailure;

    open spec fn view(&self) -> OptionsFailure {
        match self {
            OptionsError::TooLong { minutes } => OptionsFailure::TooLong { minutes: *minutes as nat },
            OptionsError::Language { cause } => OptionsFailure::Language { cause: cause@ },
        }
    }
}

impl OptionsError {
    /// The text that tells a person what was wrong with the options.
    pub open spec fn message_text(failure: OptionsFailure) -> Seq<char> {
        match failure {
            OptionsFailure::TooLong { minutes } => "Duration of "@ + decimal_text(minutes)
                + " minutes is too long; maximum duration is 100y"@,
            OptionsFailure::Language { cause } => LanguageError::message_text(cause),
        }
    }

    /// Describes the error.
    pub fn message(&self) -> (r: String)
        ensures
            r@ == Self::message_text(self@),
    {
        match self {
            OptionsError::TooLong { minutes } => {
                let mut r = String::from_str("Duration of ");
                r.append(decimal_string(*minutes).as_str());
                r.append(" minutes is too long; maximum duration is 100y");
                r
            },
            OptionsError::Language { cause } => cause.message(),
        }
    }
}

/// Everything that one paste is made from.
///
/// A value of this type always holds a lifetime of at most a hundred years and, if
/// it holds a language, one that the service accepts.
#[derive(Debug)]
pub struct PasteOptions {
    api_key: String,
    duration: u32,
    language: Option<&'static str>,
    title: Option<String>,
    max_views: Option<u32>,
    path: Option<String>,
    file_name: Option<String>,
    content: Vec<u8>,
}

/// The mathematical content of a `PasteOptions`.
pub struct PasteSettings {
    pub api_key: Seq<char>,
    /// The lifetime in minutes.
    pub duration: nat,
    pub language: Option<Seq<char>>,
    pub title: Option<Seq<char>>,
    pub max_views: Option<nat>,
    /// Where the content was read from, if it was read from a file.
    pub path: Option<Seq<char>>,
    /// The final component of `path`, where it has one.
    pub file_name: Option<Seq<char>>,
    pub content: Seq<u8>,
}

/// Whether the settings may be turned into a request.
pub open spec fn valid_settings(settings: PasteSettings) -> bool {
    &&& settings.duration <= ONE_HUNDRED_YEARS
    &&& settings.language matches Some(language) ==> is_language_token(language)
}

/// Whether `part` is a non-empty run of consecutive characters of `whole`.
pub open spec fn is_part_of(part: Seq<char>, whole: Seq<char>) -> bool {
    &&& part.len() > 0
    &&& exists|start: int|
        0 <= start && start + part.len() <= whole.len() && #[trigger] whole.subrange(
            start,
            start + part.len(),
        ) == part
}

/// Whether `path` is a single file name on every platform: not empty, neither `.`
/// nor `..`, and without any of the characters `/`, `\` and `:`, by which platforms
/// part components and prefixes.
pub open spec fn is_plain_name(path: Seq<char>) -> bool {
    &&& path.len() > 0
    &&& path != seq!['.']
    &&& path != seq!['.', '.']
    &&& forall|i: int|
        0 <= i < path.len() ==> #[trigger] path[i] != '/' && path[i] != '\\' && path[i] != ':'
}

/// Whether `file_name` may be the final component of `path`. A plain name is its
/// own final component. Any other path may have none, as when it ends in `..` or is
/// the root, and one that it has is a part of it. Without a path there is none.
pub open spec fn file_name_fits(path: Option<Seq<char>>, file_name: Option<Seq<char>>) -> bool {
    match path {
        None => file_name is None,
        Some(path) => {
            &&& is_plain_name(path) ==> file_name == Some(path)
            &&& file_name matches Some(name) ==> is_part_of(name, path)
        },
    }
}

/// Takes the final component of a path with `camino::Utf8Path::file_name`. Where
/// components end depends on the platform, so the contract claims only what holds
/// on each: the component is a non-empty piece of the path, and a path that is a
/// plain name is its own final component.
#[verifier::external_body]
fn file_name_of(path: &str) -> (r: Option<String>)
    ensures
        match r {
            Some(name) => is_part_of(name@, path@) && (is_plain_name(path@) ==> name@ == path@),
            None => !is_plain_name(path@),
        },
{
    camino::Utf8Path::new(path).file_name().map(String::from)
}

/// The text of the URL that results from parsing `base` as an absolute URL and
/// appending each of `pairs` to its query, form-urlencoded and in order; `None`
/// where `base` is no absolute URL.
pub uninterp spec fn url_with_params(base: Seq<char>, pairs: Seq<(Seq<char>, Seq<char>)>) -> Option<
    Seq<char>,
>;

/// Builds a URL with `url::Url::parse_with_params`, which parses `base` and, if that
/// succeeds, appends the pairs to the query. Nothing is proved of URL syntax or of
/// the encoding: the contract only gives the outcome its name. The base is the
/// address of the service: it is short and has no fragment, and with such a base
/// the call returns however long the query grows.
#[verifier::external_body]
fn url_with_query(base: &str, pairs: &Vec<(String, String)>) -> (r: Option<String>)
    requires
        base@ == API_URL@,
    ensures
        match r {
            Some(url) => url_with_params(base@, query_text(pairs@)) == Some(url@),
            None => url_with_params(base@, query_text(pairs@)) is None,
        },
{
    url::Url::parse_with_params(base, pairs).ok().map(String::from)
}

/// The names and values of a list of query parameters.
pub open spec fn query_text(pairs: Seq<(String, String)>) -> Seq<(Seq<char>, Seq<char>)> {
    Seq::new(pairs.len(), |i: int| (pairs[i].0@, pairs[i].1@))
}

/// The language a paste is sent with: the one that was asked for, else the one that
/// the path suggests, else `autodetect`.
pub open spec fn resolved_language(settings: PasteSettings) -> Seq<char> {
    match settings.language {
        Some(language) => language,
        None => match settings.path {
            Some(path) => match guessed_language(path) {
                Some(language) => language,
                None => "autodetect"@,
            },
            None => "autodetect"@,
        },
    }
}

/// The title a paste is sent with: the one that was asked for, else the file name,
/// else none.
pub open spec fn resolved_title(settings: PasteSettings) -> Option<Seq<char>> {
    match settings.title {
        Some(title) => Some(title),
        None => settings.file_name,
    }
}

/// The query parameters of the request, in the order they are sent: `api_key`,
/// `duration`, `language`, then `title` and `max_views` where there is one.
pub open spec fn query_of(settings: PasteSettings) -> Seq<(Seq<char>, Seq<char>)> {
    let required = seq![
        ("api_key"@, settings.api_key),
        ("duration"@, decimal_text(settings.duration)),
        ("language"@, resolved_language(settings)),
    ];
    let title = match resolved_title(settings) {
        Some(title) => seq![("title"@, title)],
        None => seq![],
    };
    let max_views = match settings.max_views {
        Some(count) => seq![("max_views"@, decimal_text(count))],
        None => seq![],
    };
    required + title + max_views
}

/// The language that valid settings are sent with is always one that the service
/// accepts.
pub proof fn lemma_resolved_language_is_token(settings: PasteSettings)
    requires
        valid_settings(settings),
    ensures
        is_language_token(resolved_language(settings)),
{
    if settings.language is None && settings.path is Some {
        let path = settings.path.unwrap();
        if guessed_language(path) is Some {
            lemma_extension_language_is_known(extension_of(path).unwrap());
        }
    }
}

/// The optional parameters are sent exactly when they are called for: without a
/// title there is no `title` parameter, and without a view count no `max_views`
/// parameter, rather than one with an empty value; a title, where there is one,
/// follows the three required parameters, and a view count comes last.
pub proof fn lemma_optional_parameters(settings: PasteSettings)
    ensures
        query_of(settings).len() >= 3,
        query_of(settings)[0] == ("api_key"@, settings.api_key),
        query_of(settings)[1] == ("duration"@, decimal_text(settings.duration)),
        query_of(settings)[2] == ("language"@, resolved_language(settings)),
        resolved_title(settings) is None ==> forall|i: int|
            0 <= i < query_of(settings).len() ==> (#[trigger] query_of(settings)[i]).0
                != "title"@,
        resolved_title(settings) matches Some(title) ==> query_of(settings).len() >= 4
            && query_of(settings)[3] == ("title"@, title),
        settings.max_views is None ==> forall|i: int|
            0 <= i < query_of(settings).len() ==> (#[trigger] query_of(settings)[i]).0
                != "max_views"@,
        settings.max_views matches Some(count) ==> query_of(settings).last() == (
            "max_views"@,
            decimal_text(count),
        ),
{
    reveal_strlit("api_key");
    reveal_strlit("duration");
    reveal_strlit("language");
    reveal_strlit("title");
    reveal_strlit("max_views");
    assert("api_key"@.len() == 7 && "duration"@.len() == 8 && "language"@.len() == 8);
    assert("title"@.len() == 5 && "max_views"@.len() == 9);
}

/// Options that were gathered for a file given by a plain name, without a title,
/// are sent with that name as the title.
pub proof fn lemma_plain_name_is_title(settings: PasteSettings)
    requires
        settings.title is None,
        settings.path matches Some(path) && is_plain_name(path),
        file_name_fits(settings.path, settings.file_name),
    ensures
        resolved_title(settings) == settings.path,
        query_of(settings).len() >= 4,
        query_of(settings)[3] == ("title"@, settings.path.unwrap()),
{
    lemma_optional_parameters(settings);
}

/// A request, ready to be posted.
#[derive(Debug)]
pub struct PasteRequest {
    /// The address with the query parameters in it.
    pub url: String,
    /// The query parameters as names and values, before encoding.
    pub query: Vec<(String, String)>,
    /// The content of the paste.
    pub body: Vec<u8>,
}

impl View for PasteOptions {
    type V = PasteSettings;

    closed spec fn view(&self) -> PasteSettings {
        PasteSettings {
            api_key: self.api_key@,
            duration: self.duration as nat,
            language: match self.language {
                Some(language) => Some(language@),
                None => None,
            },
            title: match self.title {
                Some(title) => Some(title@),
                None => None,
            },
            max_views: match self.max_views {
                Some(count) => Some(count as nat),
                None => None,
            },
            path: match self.path {
                Some(path) => Some(path@),
                None => None,
            },
            file_name: match self.file_name {
                Some(name) => Some(name@),
                None => None,
            },
            content: self.content@,
        }
    }
}

/// The characters of an optional string slice.
pub open spec fn option_str_text(s: Option<&str>) -> Option<Seq<char>> {
    match s {
        Some(s) => Some(s@),
        None => None,
    }
}

/// The number of an optional count.
pub open spec fn option_count(n: Option<u32>) -> Option<nat> {
    match n {
        Some(n) => Some(n as nat),
        None => None,
    }
}

/// Why options with this lifetime and this language are refused, if they are: the
/// lifetime is checked first.
pub open spec fn refusal(duration: u32, language: Option<&str>) -> Option<OptionsFailure> {
    if duration > ONE_HUNDRED_YEARS {
        Some(OptionsFailure::TooLong { minutes: duration as nat })
    } else {
        match language {
            Some(token) if !is_language_token(token@) => Some(
                OptionsFailure::Language {
                    cause: LanguageFailure::UnknownLanguage { token: token@ },
                },
            ),
            _ => None,
        }
    }
}

impl PasteOptions {
    #[verifier::type_invariant]
    spec fn valid(self) -> bool {
        valid_settings(self@)
    }

    /// Gathers the options of one paste.
    ///
    /// `duration` is the lifetime in minutes, `language` the language that was asked
    /// for, `path` the file that `content` was read from. The file name is taken
    /// from the path. A lifetime of more than a hundred years is refused, then a
    /// language that is neither known nor `autodetect`.
    pub fn new(
        api_key: String,
        duration: u32,
        language: Option<&str>,
        title: Option<String>,
        max_views: Option<u32>,
        path: Option<String>,
        content: Vec<u8>,
    ) -> (r: Result<PasteOptions, OptionsError>)
        ensures
            match r {
                Ok(options) => {
                    &&& options@ == (PasteSettings {
                        api_key: api_key@,
                        duration: duration as nat,
                        language: option_str_text(language),
                        title: option_text(title),
                        max_views: option_count(max_views),
                        path: option_text(path),
                        file_name: options@.file_name,
                        content: content@,
                    })
                    &&& file_name_fits(option_text(path), options@.file_name)
                    &&& valid_settings(options@)
                },
                Err(e) => refusal(duration, language) == Some(e@),
            },
            r is Ok <==> refusal(duration, language) is None,
    {
        let file_name = match &path {
            Some(path) => file_name_of(path.as_str()),
            None => None,
        };
        Self::with_file_name(api_key, duration, language, title, max_views, path, file_name, content)
    }

    /// Gathers the options of one paste as `new` does, with the file name that stands
    /// in for a missing title given by the caller instead of taken from the path.
    pub fn with_file_name(
        api_key: String,
        duration: u32,
        language: Option<&str>,
        title: Option<String>,
        max_views: Option<u32>,
        path: Option<String>,
        file_name: Option<String>,
        content: Vec<u8>,
    ) -> (r: Result<PasteOptions, OptionsError>)
        ensures
            match r {
                Ok(options) => {
                    &&& options@ == (PasteSettings {
                        api_key: api_key@,
                        duration: duration as nat,
                        language: option_str_text(language),
                        title: option_text(title),
                        max_views: option_count(max_views),
                        path: option_text(path),
                        file_name: option_text(file_name),
                        content: content@,
                    })
                    &&& valid_settings(options@)
                },
                Err(e) => refusal(duration, language) == Some(e@),
            },
            r is Ok <==> refusal(duration, language) is None,
    {
        if duration > ONE_HUNDRED_YEARS {
            return Err(OptionsError::TooLong { minutes: duration });
        }
        let language = match language {
            None => None,
            Some(token) => match validate_language(token) {
                Ok(language) => Some(language),
                Err(cause) => {
                    return Err(OptionsError::Language { cause });
                },
            },
        };
        Ok(PasteOptions { api_key, duration, language, title, max_views, path, file_name, content })
    }

    /// The language the paste is sent with.
    pub fn language(&self) -> (r: &'static str)
        ensures
            r@ == resolved_language(self@),
            is_language_token(r@),
    {
        proof {
            use_type_invariant(self);
            lemma_resolved_language_is_token(self@);
        }
        match self.language {
            Some(language) => language,
            None => match &self.path {
                Some(path) => match guess_language(path.as_str()) {
                    Some(language) => language,
                    None => "autodetect",
                },
                None => "autodetect",
            },
        }
    }

    /// The title the paste is sent with, if it has one.
    pub fn title(&self) -> (r: Option<String>)
        ensures
            option_text(r) == resolved_title(self@),
    {
        match &self.title {
            Some(title) => Some(title.clone()),
            None => match &self.file_name {
                Some(name) => Some(name.clone()),
                None => None,
            },
        }
    }

    /// The query parameters of the request, as names and values.
    ///
    /// A parameter that the options do not call for is left out, not sent empty.
    pub fn query(&self) -> (r: Vec<(String, String)>)
        ensures
            query_text(r@) == query_of(self@),
            self@.duration <= ONE_HUNDRED_YEARS,
            is_language_token(resolved_language(self@)),
    {
        proof {
            use_type_invariant(self);
        }
        let mut pairs: Vec<(String, String)> = Vec::new();
        pairs.push((String::from_str("api_key"), self.api_key.clone()));
        pairs.push((String::from_str("duration"), decimal_string(self.duration)));
        pairs.push((String::from_str("language"), String::from_str(self.language())));
        if let Some(title) = self.title() {
            pairs.push((String::from_str("title"), title));
        }
        if let Some(count) = self.max_views {
            pairs.push((String::from_str("max_views"), decimal_string(count)));
        }
        assert(query_text(pairs@) =~= query_of(self@));
        pairs
    }

    /// Builds the request: the address with the query parameters in it, and the
    /// content as the body. Nothing is sent.
    ///
    /// The result is `None` only if the address of the service is not accepted as an
    /// absolute URL.
    pub fn build_request(self) -> (r: Option<PasteRequest>)
        ensures
            match url_with_params(API_URL@, query_of(self@)) {
                Some(url) => {
                    &&& r matches Some(request)
                    &&& request.url@ == url
                    &&& query_text(request.query@) == query_of(self@)
                    &&& request.body@ == self@.content
                },
                None => r is None,
            },
            self@.duration <= ONE_HUNDRED_YEARS,
            is_language_token(resolved_language(self@)),
    {
        let query = self.query();
        match url_with_query(API_URL, &query) {
            Some(url) => Some(PasteRequest { url, query, body: self.content }),
            None => None,
        }
    }
}

} // verus!
