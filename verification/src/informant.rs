//! How the informant lines of the two chains are told apart: each chain's
//! lines begin with its name in bold colour, in square brackets.

use vstd::prelude::*;

verus! {

/// One of the two chains whose informant lines share a terminal.
#[derive(Clone, Copy, Debug, PartialEq, Eq, Structural)]
pub enum Chain {
    Parachain,
    Relaychain,
}

/// A foreground colour of a chain's name.
#[derive(Clone, Copy, Debug, PartialEq, Eq, Structural)]
pub enum Colour {
    Yellow,
    Blue,
}

/// How a chain's informant lines are written.
#[derive(Clone, Debug)]
pub struct OutputFormat {
    /// Whether colour codes are written.
    pub enable_color: bool,
    /// What every line begins with.
    pub prefix: String,
}

impl Colour {
    /// The number of the colour as a foreground in a graphic-rendition
    /// escape sequence.
    pub open spec fn foreground_code(self) -> Seq<char> {
        match self {
            Colour::Yellow => "33"@,
            Colour::Blue => "34"@,
        }
    }
}

/// `text` between the escape sequence that selects bold and the foreground
/// `colour`, and the sequence that resets every attribute.
pub open spec fn bold_painted(colour: Colour, text: Seq<char>) -> Seq<char> {
    "\x1B[1;"@ + colour.foreground_code() + "m"@ + text + "\x1B[0m"@
}

impl Chain {
    /// The name under which the chain appears.
    pub open spec fn label(self) -> Seq<char> {
        match self {
            Chain::Parachain => "Parachain"@,
            Chain::Relaychain => "Relaychain"@,
        }
    }

    /// The colour of the chain's name.
    pub open spec fn colour(self) -> Colour {
        match self {
            Chain::Parachain => Colour::Yellow,
            Chain::Relaychain => Colour::Blue,
        }
    }

    /// What the chain's informant lines begin with.
    pub open spec fn prefix(self) -> Seq<char> {
        "["@ + bold_painted(self.colour(), self.label()) + "] "@
    }
}

/// Calls `ansi_term`: `Colour::bold` makes a style of the colour as
/// foreground with bold set, `Style::paint` couples it with `text`, and the
/// `Display` of the painted string, through `to_string`, writes the style's
/// prefix, the text and the reset sequence. The contract claims that the
/// prefix is ESC `[1;`, the colour's foreground number and `m`, and that the
/// reset sequence is ESC `[0m`; the crate writes them so on every platform.
#[verifier::external_body]
fn paint_bold(colour: Colour, text: &str) -> (painted: String)
    ensures
        painted@ == bold_painted(colour, text@),
{
    let colour = match colour {
        Colour::Yellow => ansi_term::Colour::Yellow,
        Colour::Blue => ansi_term::Colour::Blue,
    };
    colour.bold().paint(text).to_string()
}

impl OutputFormat {
    /// Whether this is the format of `chain`'s informant lines.
    pub open spec fn marks(self, chain: Chain) -> bool {
        self.enable_color && self.prefix@ == chain.prefix()
    }

    /// The format of a chain's informant lines: coloured, and led by the
    /// chain's name in bold colour between square brackets and a space.
    pub fn for_chain(chain: Chain) -> (format: OutputFormat)
        ensures
            format.marks(chain),
    {
        let painted = match chain {
            Chain::Parachain => paint_bold(Colour::Yellow, "Parachain"),
            Chain::Relaychain => paint_bold(Colour::Blue, "Relaychain"),
        };
        let prefix = String::from_str("[").concat(painted.as_str()).concat("] ");
        OutputFormat { enable_color: true, prefix }
    }
}

} // verus!
