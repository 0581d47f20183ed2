//! A shared integer accumulator served over GraphQL, with the small pieces of
//! request handling around it: port configuration, the GraphQL response status,
//! the query console page and a JSON echo.

pub mod accumulator;
pub mod config;
pub mod echo;
pub mod graphql;
