use vstd::prelude::*;
use serenity::all::{Colour, CreateEmbed};

verus! {

#[verifier::external_type_specification]
#[verifier::external_body]
pub struct ExCreateEmbed(CreateEmbed);

#[verifier::external_type_specification]
#[verifier::external_body]
pub struct ExColour(Colour);

/// Relies on serenity's `CreateEmbed::new`, `title`, `description` and
/// `colour`: an embed with that title, description and side colour.
#[verifier::external_body]
fn embed_with(
    title: impl Into<String>,
    description: impl Into<String>,
    colour: Colour,
) -> (r: CreateEmbed) {
    CreateEmbed::new().title(title).description(description).colour(colour)
}

/// Relies on serenity's `Colour::BLUE`.
#[verifier::external_body]
fn blue() -> (r: Colour) {
    Colour::BLUE
}

/// Relies on serenity's `Colour::ORANGE`.
#[verifier::external_body]
fn orange() -> (r: Colour) {
    Colour::ORANGE
}

/// Relies on serenity's `Colour::RED`.
#[verifier::external_body]
fn red() -> (r: Colour) {
    Colour::RED
}

/// An informational reply: blue.
pub fn make_info_embed(title: impl Into<String>, description: impl Into<String>) -> (r:
    CreateEmbed) {
    embed_with(title, description, blue())
}

/// A warning reply: orange.
pub fn make_warning_embed(title: impl Into<String>, description: impl Into<String>) -> (r:
    CreateEmbed) {
    embed_with(title, description, orange())
}

/// An error reply: red.
pub fn make_error_embed(title: impl Into<String>, description: impl Into<String>) -> (r:
    CreateEmbed) {
    embed_with(title, description, red())
}

} // verus!
