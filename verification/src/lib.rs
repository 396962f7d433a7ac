//! A client library for a movie and show metadata service: typed titles,
//! offers, scores and providers, filter parameters rendered as a query
//! string or a JSON body, and the decisions around one HTTP round trip.
//! The transport itself stays outside; the library settles its outcome.

pub mod codec;
pub mod json;
pub mod model;
pub mod ops;
pub mod params;
pub mod parse;

pub use json::{Json, JsonNum, NumModel};
pub use model::{
    Movie, MovieModel, Offer, OfferModel, OfferUrls, OfferUrlsModel, Provider, ProviderModel,
    Score, ScoreModel, ScoreType, TitleType,
};
pub use ops::{
    CanIStreamError, base_url, providers_endpoint, providers_outcome, search_endpoint,
    search_outcome,
};
pub use params::{Params, ParamsModel};
