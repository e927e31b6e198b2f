use vstd::prelude::*;
use vstd::string::*;

verus! {

/// Root of the NASA image library API.
pub const BASE_URL: &'static str = "https://images-api.nasa.gov";

/// Alias of `BASE_URL`.
pub const API_URL: &'static str = "https://images-api.nasa.gov";

/// URL of the image library search endpoint.
pub fn search() -> (r: String)
    ensures
        r@ == BASE_URL@ + "/search"@,
{
    let mut s = String::from_str(BASE_URL);
    s.append("/search");
    s
}

/// URL of the assets of one item.
pub fn asset(nasa_id: &str) -> (r: String)
    ensures
        r@ == BASE_URL@ + "/asset/"@ + nasa_id@,
{
    let mut s = String::from_str(BASE_URL);
    s.append("/asset/");
    s.append(nasa_id);
    s
}

/// URL of the metadata of one item.
pub fn metadata(nasa_id: &str) -> (r: String)
    ensures
        r@ == BASE_URL@ + "/metadata/"@ + nasa_id@,
{
    let mut s = String::from_str(BASE_URL);
    s.append("/metadata/");
    s.append(nasa_id);
    s
}

/// URL of the captions of one item.
pub fn captions(nasa_id: &str) -> (r: String)
    ensures
        r@ == BASE_URL@ + "/captions/"@ + nasa_id@,
{
    let mut s = String::from_str(BASE_URL);
    s.append("/captions/");
    s.append(nasa_id);
    s
}

/// URL of an album.
pub fn album(album_name: &str) -> (r: String)
    ensures
        r@ == BASE_URL@ + "/album/"@ + album_name@,
{
    let mut s = String::from_str(BASE_URL);
    s.append("/album/");
    s.append(album_name);
    s
}

/// URL of the Astronomy Picture of the Day for `date`, in high definition.
pub fn apod(api_key: &str, date: &str) -> (r: String)
    ensures
        r@ == "https://api.nasa.gov/planetary/apod?api_key="@ + api_key@ + "&date="@ + date@ + "&hd=true"@,
{
    let mut s = String::from_str("https://api.nasa.gov/planetary/apod?api_key=");
    s.append(api_key);
    s.append("&date=");
    s.append(date);
    s.append("&hd=true");
    s
}

/// Kinds of media in the image library.
#[derive(Clone, Copy, Debug, PartialEq, Eq, Structural)]
pub enum MediaType {
    IMAGE,
    VIDEO,
    AUDIO,
}

/// The endpoints of the image library and their query parameters.
pub enum Endpoints {
    Search {
        q: Option<String>,
        center: Option<String>,
        description: Option<String>,
        description_508: Option<String>,
        keywords: Option<Vec<String>>,
        location: Option<String>,
        media_type: Option<MediaType>,
        nasa_id: Option<String>,
        page: Option<usize>,
        page_size: Option<usize>,
        photographer: Option<String>,
        secondary_creator: Option<String>,
        title: Option<String>,
        year_start: Option<String>,
        year_end: Option<String>,
    },
}

/// A link in a response.
pub struct Link {
    pub href: String,
    pub prompt: String,
    pub rel: String,
}

/// A wrapper around the data of a response item.
pub struct Data<T> {
    pub data: T,
}

/// One item of a search response.
pub struct SearchResult {
    pub center: String,
    pub date_created: String,
    pub description: String,
    pub keywords: Vec<String>,
    pub media_type: String,
    pub nasa_id: String,
    pub title: String,
}

/// A collection of response items.
pub struct Collection<U> {
    pub href: String,
    pub items: Vec<U>,
    pub links: Vec<Link>,
    pub version: String,
}

/// A picture of the day with its description.
pub struct ApodResponse {
    pub image: image::DynamicImage,
    pub url: String,
    pub title: String,
    pub explanation: String,
    pub date: String,
}

/// The text of a picture-of-the-day answer: where the picture is, its title and explanation.
pub struct ApodText {
    pub url: String,
    pub title: String,
    pub explanation: String,
}

/// The answer lacks the URL of the picture asked for.
#[derive(Clone, Copy, Debug, PartialEq, Eq, Structural)]
pub struct NoneError;

impl ApodText {
    /// Picks the high-definition URL or the ordinary one, and puts placeholders for a missing
    /// title or explanation; refused where the URL picked is missing.
    pub fn from_fields(
        hdurl: Option<String>,
        url: Option<String>,
        title: Option<String>,
        explanation: Option<String>,
        use_hd: bool,
    ) -> (r: Result<ApodText, NoneError>)
        ensures
            r is Ok <==> (if use_hd { hdurl is Some } else { url is Some }),
            r matches Ok(t) ==> t.url == (if use_hd { hdurl->0 } else { url->0 })
                && t.title@ == (match title {
                    Some(s) => s@,
                    None => "(no title)"@,
                })
                && t.explanation@ == (match explanation {
                    Some(s) => s@,
                    None => "(no explanation)"@,
                }),
    {
        let picked = if use_hd { hdurl } else { url };
        let url = match picked {
            Some(u) => u,
            None => return Err(NoneError),
        };
        let title = match title {
            Some(s) => s,
            None => String::from_str("(no title)"),
        };
        let explanation = match explanation {
            Some(s) => s,
            None => String::from_str("(no explanation)"),
        };
        Ok(ApodText { url, title, explanation })
    }
}

} // verus!
