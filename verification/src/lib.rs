//! Presence, Spotify and GitHub profile state with its SVG renderers.
pub mod activity;
pub mod state;
pub mod text;
pub mod spotify;
pub mod spotify_collector;
pub mod presence_compose;
pub mod selection;
pub mod presentation;
pub mod numbers;
pub mod calendar;
pub mod github;
pub mod contributions;
pub mod github_api;
pub mod github_reply;
pub mod github_store;
pub mod scan;
pub mod public_calendar;
pub mod config;
pub mod identity;
pub mod detectable;
pub mod artwork;
pub mod hero;
pub mod svg;
pub mod presence_card_v2;
pub mod presence_card;
pub mod presence_header;
pub mod first_card;
pub mod second_card;
pub mod cards;
pub mod github_card;
pub mod streak_card;
pub mod stats_card;
pub mod languages_card;
pub mod card_documents;
pub mod clock;
pub mod gateway;
