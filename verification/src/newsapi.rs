//! The feed client: the request sent to the provider, the typed reply, and
//! the mapping from a reply's status to a result or a typed error.

use vstd::prelude::*;
use vstd::string::StringExecFns;

verus! {

/// The provider's endpoint, to which the query parameters are appended.
pub const BASE_URL: &'static str = "https://newsdata.io/api/1/news";

/// The status that marks a reply as usable.
pub const STATUS_SUCCESS: &'static str = "success";

/// The provider's code for a disabled access key.
pub const CODE_KEY_DISABLED: &'static str = "apiKeyDisabled";

/// The reason reported for a disabled access key.
pub const REASON_KEY_DISABLED: &'static str = "Your API key has been disabled";

/// The reason reported for a code that the table does not know.
pub const REASON_UNKNOWN_CODE: &'static str = "Unknown error 1";

/// The reason reported when the reply carries no code at all.
pub const REASON_MISSING_CODE: &'static str = "Unknown error 2";

/// `url::ParseError`, carried through as an opaque value.
#[verifier::external_type_specification]
#[verifier::external_body]
pub struct ExParseError(url::ParseError);

/// What `url::Url::parse` makes of an input: the serialization of the parsed
/// URL, or the error it stopped on.
pub uninterp spec fn url_parse(input: Seq<char>) -> Result<Seq<char>, url::ParseError>;

/// Calls `url::Url::parse` and turns the parsed URL into its serialization,
/// the string that the URL displays as. Parsing reads its input alone, so the
/// outcome is `url_parse` of the input; nothing is claimed about which inputs
/// parse.
#[verifier::external_body]
fn parse_url(input: &str) -> (parsed: Result<String, url::ParseError>)
    ensures
        parsed is Ok <==> url_parse(input@) is Ok,
        parsed matches Ok(s) ==> url_parse(input@)->Ok_0 == s@,
        parsed matches Err(e) ==> url_parse(input@)->Err_0 == e,
{
    url::Url::parse(input).map(String::from)
}

/// Why a fetch produced no articles.
#[derive(Debug)]
pub enum NewsAPIError {
    /// The request never reached the provider; holds the transport's account.
    RequestFailed(String),
    /// The body of the reply could not be read; holds the reader's account.
    FailedResponseToString(String),
    /// The body did not have the expected structure; holds the parser's account.
    FailedParsing(String),
    /// The request URL could not be built.
    URLParsing(url::ParseError),
    /// The provider answered with a status other than success.
    BadRequest(&'static str),
    /// The non-blocking transport failed; holds its account.
    AsyncRequestFailed(String),
}

/// The mathematical value of a `NewsAPIError`.
pub enum NewsAPIErrorView {
    RequestFailed(Seq<char>),
    FailedResponseToString(Seq<char>),
    FailedParsing(Seq<char>),
    URLParsing(url::ParseError),
    BadRequest(Seq<char>),
    AsyncRequestFailed(Seq<char>),
}

impl View for NewsAPIError {
    type V = NewsAPIErrorView;

    open spec fn view(&self) -> NewsAPIErrorView {
        match *self {
            NewsAPIError::RequestFailed(detail) => NewsAPIErrorView::RequestFailed(detail@),
            NewsAPIError::FailedResponseToString(detail) => NewsAPIErrorView::FailedResponseToString(
                detail@,
            ),
            NewsAPIError::FailedParsing(detail) => NewsAPIErrorView::FailedParsing(detail@),
            NewsAPIError::URLParsing(cause) => NewsAPIErrorView::URLParsing(cause),
            NewsAPIError::BadRequest(reason) => NewsAPIErrorView::BadRequest(reason@),
            NewsAPIError::AsyncRequestFailed(detail) => NewsAPIErrorView::AsyncRequestFailed(
                detail@,
            ),
        }
    }
}

impl NewsAPIErrorView {
    /// The line a user is shown for this error.
    pub open spec fn message(self) -> Seq<char> {
        match self {
            NewsAPIErrorView::RequestFailed(_) => "Failed fetching articles"@,
            NewsAPIErrorView::FailedResponseToString(_) => "Failed Conversion of response to string"@,
            NewsAPIErrorView::FailedParsing(_) => "Article Parsing Failed"@,
            NewsAPIErrorView::URLParsing(_) => "Failed to parse url"@,
            NewsAPIErrorView::BadRequest(reason) => "Request failed: "@ + reason,
            NewsAPIErrorView::AsyncRequestFailed(_) => "Failed async fetch"@,
        }
    }
}

impl NewsAPIError {
    /// The line a user is shown for this error.
    pub fn message(&self) -> (line: String)
        ensures
            line@ == self@.message(),
    {
        match self {
            NewsAPIError::RequestFailed(_) => String::from_str("Failed fetching articles"),
            NewsAPIError::FailedResponseToString(_) => String::from_str(
                "Failed Conversion of response to string",
            ),
            NewsAPIError::FailedParsing(_) => String::from_str("Article Parsing Failed"),
            NewsAPIError::URLParsing(_) => String::from_str("Failed to parse url"),
            NewsAPIError::BadRequest(reason) => String::from_str("Request failed: ").concat(reason),
            NewsAPIError::AsyncRequestFailed(_) => String::from_str("Failed async fetch"),
        }
    }
}

/// The reason that the error-code table gives for a reply's code.
pub open spec fn api_error_reason(code: Option<Seq<char>>) -> Seq<char> {
    match code {
        Some(c) => if c == CODE_KEY_DISABLED@ {
            REASON_KEY_DISABLED@
        } else {
            REASON_UNKNOWN_CODE@
        },
        None => REASON_MISSING_CODE@,
    }
}

/// A reply without a code is told apart from every reply with one: the
/// reason for a missing code is given for no code at all, known or not.
pub proof fn lemma_missing_code_is_told_apart(code: Seq<char>)
    ensures
        api_error_reason(None) != api_error_reason(Some(code)),
{
    reveal_strlit("Your API key has been disabled");
    reveal_strlit("Unknown error 1");
    reveal_strlit("Unknown error 2");
    assert(REASON_MISSING_CODE@[14] == '2');
    assert(REASON_UNKNOWN_CODE@[14] == '1');
    assert(REASON_KEY_DISABLED@.len() != REASON_MISSING_CODE@.len());
}

/// Maps the code of a reply whose status is not success to a typed error.
pub fn map_response_err(code: Option<String>) -> (error: NewsAPIError)
    ensures
        error@ == NewsAPIErrorView::BadRequest(api_error_reason(code.deep_view())),
{
    match code {
        Some(code) => {
            if code == String::from_str(CODE_KEY_DISABLED) {
                NewsAPIError::BadRequest(REASON_KEY_DISABLED)
            } else {
                NewsAPIError::BadRequest(REASON_UNKNOWN_CODE)
            }
        },
        None => NewsAPIError::BadRequest(REASON_MISSING_CODE),
    }
}

/// One article of a reply.
#[derive(Debug, Clone, PartialEq, Eq)]
pub struct Article {
    title: String,
    link: String,
    description: Option<String>,
}

/// The mathematical value of an `Article`.
pub struct ArticleView {
    pub title: Seq<char>,
    pub link: Seq<char>,
    pub description: Option<Seq<char>>,
}

impl View for Article {
    type V = ArticleView;

    closed spec fn view(&self) -> ArticleView {
        ArticleView {
            title: self.title@,
            link: self.link@,
            description: self.description.deep_view(),
        }
    }
}

impl Article {
    /// An article with the given title, link and, where it has one, description.
    pub fn new(title: String, link: String, description: Option<String>) -> (article: Article)
        ensures
            article@ == (ArticleView {
                title: title@,
                link: link@,
                description: description.deep_view(),
            }),
    {
        Article { title, link, description }
    }

    /// The article's title.
    pub fn get_title(&self) -> (title: &str)
        ensures
            title@ == self@.title,
    {
        self.title.as_str()
    }

    /// The address of the article.
    pub fn get_link(&self) -> (link: &str)
        ensures
            link@ == self@.link,
    {
        self.link.as_str()
    }

    /// The article's description, where it has one.
    pub fn get_description(&self) -> (description: Option<&String>)
        ensures
            description.deep_view() == self@.description,
    {
        self.description.as_ref()
    }
}

/// The views of a sequence of articles, in order.
pub open spec fn article_views(articles: Seq<Article>) -> Seq<ArticleView> {
    Seq::new(articles.len(), |i: int| articles[i]@)
}

/// A parsed reply of the provider.
#[derive(Debug, Clone, PartialEq, Eq)]
pub struct NewsAPIResponse {
    status: String,
    pub results: Vec<Article>,
    code: Option<String>,
}

/// The mathematical value of a `NewsAPIResponse`.
pub struct NewsAPIResponseView {
    pub status: Seq<char>,
    pub results: Seq<ArticleView>,
    pub code: Option<Seq<char>>,
}

impl NewsAPIResponseView {
    /// Whether the reply's articles are meaningful.
    pub open spec fn is_success(self) -> bool {
        self.status == STATUS_SUCCESS@
    }
}

impl View for NewsAPIResponse {
    type V = NewsAPIResponseView;

    closed spec fn view(&self) -> NewsAPIResponseView {
        NewsAPIResponseView {
            status: self.status@,
            results: article_views(self.results@),
            code: self.code.deep_view(),
        }
    }
}

impl NewsAPIResponse {
    /// A reply with the given status, articles and, where it has one, error code.
    pub fn new(status: String, results: Vec<Article>, code: Option<String>) -> (response:
        NewsAPIResponse)
        ensures
            response@ == (NewsAPIResponseView {
                status: status@,
                results: article_views(results@),
                code: code.deep_view(),
            }),
    {
        NewsAPIResponse { status, results, code }
    }

    /// The articles of the reply, in its order.
    pub fn articles(&self) -> (articles: &Vec<Article>)
        ensures
            article_views(articles@) == self@.results,
    {
        &self.results
    }

    /// Whether the reply's status is success.
    pub fn is_success(&self) -> (success: bool)
        ensures
            success == self@.is_success(),
    {
        self.status == String::from_str(STATUS_SUCCESS)
    }

    /// Judges a parsed reply by its status: a reply with status success is
    /// handed back as it is, any other becomes the error that the table gives
    /// for its code.
    pub fn into_result(self) -> (result: Result<NewsAPIResponse, NewsAPIError>)
        ensures
            self@.is_success() ==> result is Ok && result->Ok_0 == self,
            !self@.is_success() ==> result is Err && result->Err_0@
                == NewsAPIErrorView::BadRequest(api_error_reason(self@.code)),
    {
        if self.is_success() {
            Ok(self)
        } else {
            Err(map_response_err(self.code))
        }
    }
}

/// The category of news asked for.
#[derive(Debug, Clone, Copy, PartialEq, Eq)]
pub enum Category {
    TopHeadLines,
}

/// The country whose news is asked for.
#[derive(Debug, Clone, Copy, PartialEq, Eq)]
pub enum Country {
    GB,
    US,
}

/// The language of the news asked for.
#[derive(Debug, Clone, Copy, PartialEq, Eq)]
pub enum Languages {
    EN,
}

impl Category {
    /// The value of the `category` query parameter.
    pub open spec fn query_value(self) -> Seq<char> {
        match self {
            Category::TopHeadLines => "top"@,
        }
    }

    /// The selector as it stands in a query.
    pub fn to_string(&self) -> (value: String)
        ensures
            value@ == self.query_value(),
    {
        match self {
            Category::TopHeadLines => String::from_str("top"),
        }
    }
}

impl Country {
    /// The value of the `country` query parameter.
    pub open spec fn query_value(self) -> Seq<char> {
        match self {
            Country::GB => "gb"@,
            Country::US => "us"@,
        }
    }

    /// The selector as it stands in a query.
    pub fn to_string(&self) -> (value: String)
        ensures
            value@ == self.query_value(),
    {
        match self {
            Country::GB => String::from_str("gb"),
            Country::US => String::from_str("us"),
        }
    }
}

impl Languages {
    /// The value of the `language` query parameter.
    pub open spec fn query_value(self) -> Seq<char> {
        match self {
            Languages::EN => "en"@,
        }
    }

    /// The selector as it stands in a query.
    pub fn to_string(&self) -> (value: String)
        ensures
            value@ == self.query_value(),
    {
        match self {
            Languages::EN => String::from_str("en"),
        }
    }
}

/// A request to the provider: the access key and the three selectors.
#[derive(Debug, Clone, PartialEq, Eq)]
pub struct NewsAPI {
    api_key: String,
    category: Category,
    country: Country,
    language: Languages,
}

/// The mathematical value of a `NewsAPI`.
pub struct NewsAPIView {
    pub api_key: Seq<char>,
    pub category: Category,
    pub country: Country,
    pub language: Languages,
}

impl View for NewsAPI {
    type V = NewsAPIView;

    closed spec fn view(&self) -> NewsAPIView {
        NewsAPIView {
            api_key: self.api_key@,
            category: self.category,
            country: self.country,
            language: self.language,
        }
    }
}

/// The request for the top headlines of Great Britain in English under a key.
pub open spec fn default_request(api_key: Seq<char>) -> NewsAPIView {
    NewsAPIView {
        api_key: api_key,
        category: Category::TopHeadLines,
        country: Country::GB,
        language: Languages::EN,
    }
}

/// The URL of a request: the serialized endpoint, then the key and the
/// selectors as query parameters.
pub open spec fn request_url(base: Seq<char>, request: NewsAPIView) -> Seq<char> {
    base + "?apikey="@ + request.api_key + "&language="@ + request.language.query_value()
        + "&country="@ + request.country.query_value() + "&category="@
        + request.category.query_value()
}

impl NewsAPI {
    /// The request for the top headlines of Great Britain in English under
    /// a key.
    pub fn new(api_key: &str) -> (api: NewsAPI)
        ensures
            api@ == default_request(api_key@),
    {
        NewsAPI {
            api_key: String::from_str(api_key),
            category: Category::TopHeadLines,
            country: Country::GB,
            language: Languages::EN,
        }
    }

    /// Selects the category and hands the request back for the next call.
    pub fn category(&mut self, category: Category) -> (api: &mut NewsAPI)
        ensures
            api@ == (NewsAPIView { category: category, ..old(self)@ }),
            *final(self) == *final(api),
    {
        self.category = category;
        self
    }

    /// Selects the country and hands the request back for the next call.
    pub fn country(&mut self, country: Country) -> (api: &mut NewsAPI)
        ensures
            api@ == (NewsAPIView { country: country, ..old(self)@ }),
            *final(self) == *final(api),
    {
        self.country = country;
        self
    }

    /// Selects the language and hands the request back for the next call.
    pub fn language(&mut self, language: Languages) -> (api: &mut NewsAPI)
        ensures
            api@ == (NewsAPIView { language: language, ..old(self)@ }),
            *final(self) == *final(api),
    {
        self.language = language;
        self
    }

    /// The access key of the request.
    pub fn api_key(&self) -> (key: &str)
        ensures
            key@ == self@.api_key,
    {
        self.api_key.as_str()
    }

    /// Builds the request URL on an endpoint that has been through the URL
    /// parser: on its serialization the query is appended, and a parse error
    /// becomes `URLParsing`.
    pub fn url_on_base(&self, parsed: Result<String, url::ParseError>) -> (url: Result<
        String,
        NewsAPIError,
    >)
        ensures
            parsed matches Ok(base) ==> url is Ok && url->Ok_0@ == request_url(base@, self@),
            parsed matches Err(cause) ==> url is Err && url->Err_0@
                == NewsAPIErrorView::URLParsing(cause),
    {
        match parsed {
            Ok(base) => {
                let mut url = base;
                url.append("?apikey=");
                url.append(self.api_key.as_str());
                url.append("&language=");
                url.append(self.language.to_string().as_str());
                url.append("&country=");
                url.append(self.country.to_string().as_str());
                url.append("&category=");
                url.append(self.category.to_string().as_str());
                Ok(url)
            },
            Err(cause) => Err(NewsAPIError::URLParsing(cause)),
        }
    }

    /// The URL of this request at an endpoint: the endpoint as the URL
    /// parser serializes it, with the query appended, or `URLParsing` where
    /// the parser refuses the endpoint.
    pub fn prepare_url_at(&self, endpoint: &str) -> (url: Result<String, NewsAPIError>)
        ensures
            url_parse(endpoint@) matches Ok(base) ==> url is Ok && url->Ok_0@ == request_url(
                base,
                self@,
            ),
            url_parse(endpoint@) matches Err(cause) ==> url is Err && url->Err_0@
                == NewsAPIErrorView::URLParsing(cause),
    {
        self.url_on_base(parse_url(endpoint))
    }

    /// The URL of this request at the provider's endpoint, `BASE_URL`.
    pub fn prepare_url(&self) -> (url: Result<String, NewsAPIError>)
        ensures
            url_parse(BASE_URL@) matches Ok(base) ==> url is Ok && url->Ok_0@ == request_url(
                base,
                self@,
            ),
            url_parse(BASE_URL@) matches Err(cause) ==> url is Err && url->Err_0@
                == NewsAPIErrorView::URLParsing(cause),
    {
        self.prepare_url_at(BASE_URL)
    }
}

} // verus!
