//! Fixed protocol constants of the service interface.

use vstd::prelude::*;

verus! {

/// Host name bound into the canonical string of every signed request.
pub const HOST: &'static str = "api.imdbws.com";

/// Origin prefixed to every resource path.
pub const BASE_URI: &'static str = "https://api.imdbws.com";

/// Origin of the unauthenticated suggest service used by free-text search.
pub const SEARCH_BASE_URI: &'static str = "https://v2.sg.media-imdb.com";

/// Version-stamped user agent naming the mobile client build the service
/// authorizes for this API surface.
pub const USER_AGENT: &'static str = "IMDb/8.3.1 (iPhone9,4; iOS 11.2.1)";

/// Fixed, non-secret application key sent with the credential bootstrap
/// request.
pub const APP_KEY: &'static str = "76a6cc20-6073-4290-8a2c-951b4580ae4a";

} // verus!
