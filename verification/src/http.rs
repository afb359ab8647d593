//! The HTTP vocabulary, the request parser and the response writer.

pub mod http_header;
pub mod http_method;
pub mod http_path;
pub mod http_request;
pub mod http_response;

pub use self::http_header::{HttpHeader, HttpHeaderType, HttpStatus};
pub use self::http_method::HttpMethod;
pub use self::http_path::{HttpPath, PathKind};
pub use self::http_request::HttpRequest;
pub use self::http_response::HttpResponse;
