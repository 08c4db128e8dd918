use vstd::prelude::*;
use vstd::string::StringExecFns;
use crate::InputArgs;
use crate::config::Config;
use crate::errors::{ConfigError, NoResultError};
use crate::text::{escape_spaces, plus_escaped, lemma_plus_escaped, ends_with,
    lemma_concat_ends_with};

verus! {

/// One image record of the remote API's response: a path to the image,
/// its resolution, its view and favorite counts, and its identifier.
#[derive(Debug, Clone)]
pub struct WallbaseData {
    pub path: String,
    pub resolution: String,
    pub views: i32,
    pub favorites: i32,
    pub id: String,
}

/// A validated search result: the records of one successful fetch, in
/// response order. It is only built from a non-empty record sequence.
#[derive(Debug)]
pub struct Wallbase {
    data: Vec<WallbaseData>,
}

/// The fixed part of a search URL: base URL, API segment, then the
/// category and purity filters and the random-sorting token.
pub open spec fn required_part(c: Config) -> Seq<char>
    recommends
        c.complete(),
{
    c.base_url->0@ + c.api->0@ + "&categories="@ + c.categories->0@ + "&purity="@
        + c.purity->0@ + "&sorting=random"@
}

/// The colour parameter, when a colour is set.
pub open spec fn color_part(a: InputArgs) -> Seq<char> {
    match a.color {
        Some(c) => "&color="@ + c@,
        None => Seq::empty(),
    }
}

/// The query parameter, when a query is set: its spaces are sent as `+`.
pub open spec fn query_part(a: InputArgs) -> Seq<char> {
    match a.query {
        Some(q) => "&q="@ + plus_escaped(q@),
        None => Seq::empty(),
    }
}

/// The resolution parameter, when a resolution is known.
pub open spec fn resolution_part(a: InputArgs) -> Seq<char> {
    match a.resolution {
        Some(r) => "&resolutions="@ + r@,
        None => Seq::empty(),
    }
}

/// The full search URL: the fixed part, then the optional parameters in
/// the fixed order colour, query, resolution.
pub open spec fn url_of(c: Config, a: InputArgs) -> Seq<char>
    recommends
        c.complete(),
{
    required_part(c) + color_part(a) + query_part(a) + resolution_part(a)
}

/// An image-board site the tool can search: it states how its search
/// URLs are built and how an image is chosen out of a validated result.
pub trait Website: Sized {
    /// The search URL this site expects for a complete configuration
    /// and the given runtime parameters.
    spec fn url_spec(c: Config, a: InputArgs) -> Seq<char>;

    /// Whether this value came out of a successful validation.
    spec fn validated(&self) -> bool;

    /// The image a validated result selects.
    spec fn image_spec(&self) -> Seq<char>;

    /// Builds the search URL, or reports the first missing
    /// configuration key.
    fn build_url(config: &Config, args: &InputArgs) -> (r: Result<String, ConfigError>)
        ensures
            r is Ok <==> config.complete(),
            r matches Ok(u) ==> u@ == Self::url_spec(*config, *args),
            r matches Err(e) ==> config.missing_key() == Some(e.missing_key@),
    ;

    /// Validates a decoded response: a non-empty record sequence is a
    /// result, an empty one is the distinct no-result error.
    fn build(data: Vec<WallbaseData>) -> (r: Result<Self, NoResultError>)
        ensures
            r is Ok <==> data@.len() > 0,
            r matches Ok(w) ==> w.validated() && w.image_spec() == data@[0].path@,
            r matches Err(e) ==> e.details@ == "No results found"@,
    ;

    /// The selected image of a validated result.
    fn get_image(&self) -> (r: String)
        requires
            self.validated(),
        ensures
            r@ == self.image_spec(),
    ;
}

impl Website for Wallbase {
    open spec fn url_spec(c: Config, a: InputArgs) -> Seq<char> {
        url_of(c, a)
    }

    closed spec fn validated(&self) -> bool {
        self.data@.len() > 0
    }

    closed spec fn image_spec(&self) -> Seq<char> {
        self.data@[0].path@
    }

    fn build_url(config: &Config, args: &InputArgs) -> (r: Result<String, ConfigError>) {
        let base = match &config.base_url {
            Some(s) => s,
            None => return Err(ConfigError { missing_key: "base_url".to_owned() }),
        };
        let api = match &config.api {
            Some(s) => s,
            None => return Err(ConfigError { missing_key: "api".to_owned() }),
        };
        let categories = match &config.categories {
            Some(s) => s,
            None => return Err(ConfigError { missing_key: "categories".to_owned() }),
        };
        let purity = match &config.purity {
            Some(s) => s,
            None => return Err(ConfigError { missing_key: "purity".to_owned() }),
        };
        let mut url = base.clone();
        url.append(api.as_str());
        url.append("&categories=");
        url.append(categories.as_str());
        url.append("&purity=");
        url.append(purity.as_str());
        url.append("&sorting=random");
        if let Some(color) = &args.color {
            url.append("&color=");
            url.append(color.as_str());
        }
        if let Some(query) = &args.query {
            url.append("&q=");
            let escaped = escape_spaces(query.as_str());
            url.append(escaped.as_str());
        }
        if let Some(resolution) = &args.resolution {
            url.append("&resolutions=");
            url.append(resolution.as_str());
        }
        proof {
            assert(url@ =~= url_of(*config, *args));
        }
        Ok(url)
    }

    fn build(data: Vec<WallbaseData>) -> (r: Result<Wallbase, NoResultError>) {
        if data.len() == 0 {
            return Err(NoResultError::new("No results found"));
        }
        Ok(Wallbase { data })
    }

    fn get_image(&self) -> (r: String) {
        self.data[0].path.clone()
    }
}

/// Law: the built URL is the fixed part followed by the optional
/// parameters; the fixed part ends with the random-sorting token, so
/// that token stands before every optional parameter, and the optional
/// parameters follow in the fixed order colour, query, resolution.
pub proof fn lemma_url_shape(c: Config, a: InputArgs)
    requires
        c.complete(),
    ensures
        url_of(c, a) == required_part(c) + color_part(a) + query_part(a)
            + resolution_part(a),
        ends_with(required_part(c), "&sorting=random"@),
{
    lemma_concat_ends_with(
        c.base_url->0@ + c.api->0@ + "&categories="@ + c.categories->0@ + "&purity="@
            + c.purity->0@,
        "&sorting=random"@,
    );
    assert(required_part(c) =~= (c.base_url->0@ + c.api->0@ + "&categories="@
        + c.categories->0@ + "&purity="@ + c.purity->0@) + "&sorting=random"@);
}

/// Whether a character sequence holds no space.
pub open spec fn space_free(s: Seq<char>) -> bool {
    forall|i: int| 0 <= i < s.len() ==> s[i] != ' '
}

/// Law: a query's spaces never reach the URL. When the configuration
/// values and the colour and resolution tokens are space-free, the
/// whole built URL is space-free, whatever the query holds: each of the
/// query's spaces stands in it as a `+`.
pub proof fn lemma_url_space_free(c: Config, a: InputArgs)
    requires
        c.complete(),
        space_free(c.base_url->0@),
        space_free(c.api->0@),
        space_free(c.categories->0@),
        space_free(c.purity->0@),
        a.color matches Some(col) ==> space_free(col@),
        a.resolution matches Some(res) ==> space_free(res@),
    ensures
        space_free(url_of(c, a)),
{
    reveal_strlit("&categories=");
    reveal_strlit("&purity=");
    reveal_strlit("&sorting=random");
    reveal_strlit("&color=");
    reveal_strlit("&q=");
    reveal_strlit("&resolutions=");
    if a.query is Some {
        lemma_plus_escaped(a.query->0@);
    }
    assert forall|i: int| 0 <= i < url_of(c, a).len() implies url_of(c, a)[i] != ' ' by {
        assert(space_free("&categories="@));
        assert(space_free("&purity="@));
        assert(space_free("&sorting=random"@));
        assert(space_free("&color="@));
        assert(space_free("&q="@));
        assert(space_free("&resolutions="@));
    }
}

} // verus!
