use vstd::prelude::*;

verus! {

/// Endpoint of the image-generation API.
pub const IMAGES_ENDPOINT: &'static str = "https://api.openai.com/v1/images/generations";

/// Model that generates the images.
pub const IMAGE_MODEL: &'static str = "gpt-image-2";

/// Size of the generated images.
pub const IMAGE_SIZE: &'static str = "1024x1024";

/// Body of an image-generation request.
#[derive(Debug)]
pub struct ImageRequest {
    pub model: String,
    pub prompt: String,
    pub n: u8,
    pub size: String,
}

/// One generated image: a URL, or the image itself in base64.
#[derive(Debug)]
pub struct ImageData {
    pub url: Option<String>,
    pub b64_json: Option<String>,
}

/// Body of a successful image-generation reply.
#[derive(Debug)]
pub struct ImageResponse {
    pub data: Vec<ImageData>,
}

impl ImageRequest {
    /// The request for one image of the service's model and size for `prompt`.
    pub fn for_prompt(prompt: &str) -> (r: Self)
        ensures
            r.model@ == IMAGE_MODEL@,
            r.prompt@ == prompt@,
            r.n == 1,
            r.size@ == IMAGE_SIZE@,
    {
        ImageRequest {
            model: String::from_str(IMAGE_MODEL),
            prompt: String::from_str(prompt),
            n: 1,
            size: String::from_str(IMAGE_SIZE),
        }
    }
}

/// Whether an HTTP status code reports success (2xx).
pub open spec fn spec_is_success(code: u16) -> bool {
    200 <= code < 300
}

/// Whether an HTTP status code reports success (2xx).
pub fn is_success_status(code: u16) -> (ok: bool)
    ensures
        ok == spec_is_success(code),
{
    200 <= code && code < 300
}

/// What a reply's image list yields: the URL of the first image, else its
/// base64 content as a PNG data URL, else an error message.
pub open spec fn spec_image_outcome(data: Seq<ImageData>) -> Result<Seq<char>, Seq<char>> {
    if data.len() == 0 {
        Err("No image data returned"@)
    } else {
        match data[0].url {
            Some(u) => Ok(u@),
            None => match data[0].b64_json {
                Some(b) => Ok("data:image/png;base64,"@ + b@),
                None => Err("No url or b64_json in response"@),
            },
        }
    }
}

/// What a reply's image list yields, case by case: the first image's URL as
/// given; else its base64 text, verbatim, after the PNG data-URL prefix; an
/// error for an empty list or a first image with neither.
pub proof fn lemma_image_outcome_cases(data: Seq<ImageData>)
    ensures
        data.len() == 0 ==> spec_image_outcome(data) == Err::<Seq<char>, Seq<char>>(
            "No image data returned"@,
        ),
        data.len() > 0 && data[0].url is Some ==> spec_image_outcome(data) == Ok::<
            Seq<char>,
            Seq<char>,
        >(data[0].url->0@),
        data.len() > 0 && data[0].url is None && data[0].b64_json is Some ==> spec_image_outcome(
            data,
        ) == Ok::<Seq<char>, Seq<char>>("data:image/png;base64,"@ + data[0].b64_json->0@),
        data.len() > 0 && data[0].url is None && data[0].b64_json is None ==> spec_image_outcome(
            data,
        ) == Err::<Seq<char>, Seq<char>>("No url or b64_json in response"@),
{
}

/// The image that a successful reply delivers.
pub fn image_from_response(resp: &ImageResponse) -> (r: Result<String, String>)
    ensures
        resp.data@.len() == 0 ==> (r matches Err(t) && t@ == "No image data returned"@),
        resp.data@.len() > 0 && resp.data@[0].url is Some ==> (r matches Ok(t) && t@
            == resp.data@[0].url->0@),
        resp.data@.len() > 0 && resp.data@[0].url is None && resp.data@[0].b64_json is Some ==> (
        r matches Ok(t) && t@ == "data:image/png;base64,"@ + resp.data@[0].b64_json->0@),
        resp.data@.len() > 0 && resp.data@[0].url is None && resp.data@[0].b64_json is None ==> (
        r matches Err(t) && t@ == "No url or b64_json in response"@),
        match spec_image_outcome(resp.data@) {
            Ok(s) => r matches Ok(t) && t@ == s,
            Err(m) => r matches Err(t) && t@ == m,
        },
{
    if resp.data.len() == 0 {
        return Err(String::from_str("No image data returned"));
    }
    let first = &resp.data[0];
    match &first.url {
        Some(u) => Ok(u.clone()),
        None => match &first.b64_json {
            Some(b) => Ok(String::from_str("data:image/png;base64,").concat(b.as_str())),
            None => Err(String::from_str("No url or b64_json in response")),
        },
    }
}

/// A reply of the image service: the body text of a reply whose status is not
/// a success, or the parsed body of a successful one.
#[derive(Debug)]
pub enum ImageReply {
    Refused(String),
    Delivered(ImageResponse),
}

/// What a reply yields: the body text of a refusal as the error, else the
/// image that the successful body delivers.
pub fn generation_result(reply: &ImageReply) -> (r: Result<String, String>)
    ensures
        match *reply {
            ImageReply::Refused(text) => r matches Err(t) && t@ == text@,
            ImageReply::Delivered(resp) => match spec_image_outcome(resp.data@) {
                Ok(s) => r matches Ok(t) && t@ == s,
                Err(m) => r matches Err(t) && t@ == m,
            },
        },
{
    match reply {
        ImageReply::Refused(text) => Err(text.clone()),
        ImageReply::Delivered(resp) => image_from_response(resp),
    }
}

} // verus!
