//! The `linear_gradient` notation of the settings file:
//! `linear_gradient [to <direction words>] #c1 #c2 ...`.

use vstd::prelude::*;
use crate::text::{join, join_range, joined, same_text, split_whitespace, starts_with, trim, trimmed, views, words};

verus! {

/// A parsed gradient: an optional direction phrase and the colour texts, in
/// the order in which they were written.
#[derive(Debug)]
pub struct GradientDirective {
    /// The direction phrase, beginning with `to `, where one was written.
    pub direction: Option<String>,
    /// The colour texts, each beginning with `#`; never empty after a parse.
    pub colors: Vec<String>,
}

/// What a gradient holds, as plain texts.
pub struct GradientModel {
    pub direction: Option<Seq<char>>,
    pub colors: Seq<Seq<char>>,
}

impl View for GradientDirective {
    type V = GradientModel;

    open spec fn view(&self) -> GradientModel {
        GradientModel {
            direction: match self.direction {
                Some(d) => Some(d@),
                None => None,
            },
            colors: views(self.colors@),
        }
    }
}

/// The word that opens the notation.
pub open spec fn keyword() -> Seq<char> {
    "linear_gradient"@
}

/// A word counts as a colour when it begins with `#`; its digits are not
/// examined.
pub open spec fn is_color_token(t: Seq<char>) -> bool {
    t.len() > 0 && t[0] == '#'
}

/// Number of consecutive words from index `i` on that are no colours.
pub open spec fn direction_len(tokens: Seq<Seq<char>>, i: int) -> nat
    decreases tokens.len() - i,
{
    if 0 <= i < tokens.len() && !is_color_token(tokens[i]) {
        1 + direction_len(tokens, i + 1)
    } else {
        0
    }
}

/// The colours among `tokens`, in order.
pub open spec fn color_tokens(tokens: Seq<Seq<char>>) -> Seq<Seq<char>>
    decreases tokens.len(),
{
    if tokens.len() == 0 {
        Seq::empty()
    } else if is_color_token(tokens.last()) {
        color_tokens(tokens.drop_last()).push(tokens.last())
    } else {
        color_tokens(tokens.drop_last())
    }
}

/// Where the colour list begins: behind the direction words when the first
/// word is `to`, else at the first word.
pub open spec fn colors_start(tokens: Seq<Seq<char>>) -> int {
    if tokens.len() > 0 && tokens[0] == "to"@ {
        (1 + direction_len(tokens, 1)) as int
    } else {
        0
    }
}

/// What a text means as a gradient. Whitespace around the text does not
/// count. The text has to begin with the keyword; what follows is split into
/// words. After a first word `to`, the words up to the first colour are the
/// direction. From there on every colour counts and any other word is
/// passed over. A text without a colour is no gradient.
pub open spec fn gradient_of(text: Seq<char>) -> Option<GradientModel> {
    let s = trimmed(text);
    if !keyword().is_prefix_of(s) {
        None
    } else {
        let tokens = words(s.subrange(keyword().len() as int, s.len() as int));
        let start = colors_start(tokens);
        let colors = color_tokens(tokens.subrange(start, tokens.len() as int));
        if colors.len() == 0 {
            None
        } else if start > 0 {
            Some(
                GradientModel {
                    direction: Some("to "@ + joined(tokens.subrange(1, start), " "@)),
                    colors,
                },
            )
        } else {
            Some(GradientModel { direction: None, colors })
        }
    }
}

/// The stylesheet expression of a gradient.
pub open spec fn rendered(g: GradientModel) -> Seq<char> {
    match g.direction {
        Some(d) => "linear-gradient("@ + d + ", "@ + joined(g.colors, ", "@) + ")"@,
        None => "linear-gradient("@ + joined(g.colors, ", "@) + ")"@,
    }
}

/// Every member of a colour list begins with `#`.
pub proof fn lemma_color_tokens_are_colors(tokens: Seq<Seq<char>>)
    ensures
        forall|i: int|
            0 <= i < color_tokens(tokens).len() ==> is_color_token(
                #[trigger] color_tokens(tokens)[i],
            ),
    decreases tokens.len(),
{
    if tokens.len() > 0 {
        lemma_color_tokens_are_colors(tokens.drop_last());
        let rest = color_tokens(tokens.drop_last());
        assert forall|i: int| 0 <= i < color_tokens(tokens).len() implies is_color_token(
            #[trigger] color_tokens(tokens)[i],
        ) by {
            if i < rest.len() {
                assert(color_tokens(tokens)[i] == rest[i]);
            } else {
                assert(color_tokens(tokens)[i] == tokens.last());
            }
        }
    }
}

/// A parsed gradient holds at least one colour, each of its colours begins
/// with `#`, and its direction, where it has one, begins with `to `. A text
/// that lacks the keyword is no gradient.
pub proof fn lemma_gradient_shape(text: Seq<char>)
    ensures
        !keyword().is_prefix_of(trimmed(text)) ==> gradient_of(text) is None,
        gradient_of(text) is Some ==> {
            let g = gradient_of(text).unwrap();
            &&& g.colors.len() >= 1
            &&& forall|i: int| 0 <= i < g.colors.len() ==> is_color_token(#[trigger] g.colors[i])
            &&& g.direction is Some ==> "to "@.is_prefix_of(g.direction.unwrap())
        },
{
    let s = trimmed(text);
    if keyword().is_prefix_of(s) {
        let tokens = words(s.subrange(keyword().len() as int, s.len() as int));
        let start = colors_start(tokens);
        lemma_color_tokens_are_colors(tokens.subrange(start, tokens.len() as int));
    }
}

/// Tests whether a word begins with `#`.
fn is_color_word(t: &str) -> (b: bool)
    ensures
        b == is_color_token(t@),
{
    t.unicode_len() > 0 && t.get_char(0) == '#'
}

/// Parses a gradient written as `linear_gradient [to <words>] #c1 #c2 ...`.
/// Returns `None` for a text that does not begin with the keyword or that
/// holds no colour.
pub fn parse_gradient(text: &str) -> (parsed: Option<GradientDirective>)
    ensures
        match parsed {
            Some(g) => gradient_of(text@) == Some(g@),
            None => gradient_of(text@) is None,
        },
{
    let s = trim(text);
    if !starts_with(s, "linear_gradient") {
        return None;
    }
    let rest = s.substring_char("linear_gradient".unicode_len(), s.unicode_len());
    let tokens = split_whitespace(rest);
    let ghost all = views(tokens@);
    let mut start: usize = 0;
    let mut direction: Option<String> = None;
    if tokens.len() > 0 && same_text(tokens[0].as_str(), "to") {
        start = 1;
        while start < tokens.len() && !is_color_word(tokens[start].as_str())
            invariant
                1 <= start <= tokens.len(),
                all == views(tokens@),
                direction_len(all, 1) == (start - 1) + direction_len(all, start as int),
            decreases tokens.len() - start,
        {
            start += 1;
        }
        let mut phrase = String::from_str("to ");
        phrase.append(join_range(&tokens, 1, start, " ").as_str());
        direction = Some(phrase);
    }
    assert(start == colors_start(all));
    let mut colors: Vec<String> = Vec::new();
    let mut i: usize = start;
    proof {
        assert(all.subrange(start as int, start as int) =~= Seq::<Seq<char>>::empty());
    }
    while i < tokens.len()
        invariant
            start <= i <= tokens.len(),
            all == views(tokens@),
            views(colors@) == color_tokens(all.subrange(start as int, i as int)),
        decreases tokens.len() - i,
    {
        proof {
            let next = all.subrange(start as int, i + 1);
            assert(next.drop_last() =~= all.subrange(start as int, i as int));
            assert(next.last() == tokens@[i as int]@);
        }
        if is_color_word(tokens[i].as_str()) {
            let color = tokens[i].clone();
            proof {
                assert(views(colors@.push(color)) =~= views(colors@).push(color@));
            }
            colors.push(color);
        }
        i += 1;
    }
    if colors.len() == 0 {
        return None;
    }
    Some(GradientDirective { direction, colors })
}

impl GradientDirective {
    /// Renders the gradient as a stylesheet expression:
    /// `linear-gradient(<direction>, <c1>, <c2>, ...)`, without the direction
    /// clause where there is no direction.
    pub fn render(&self) -> (css: String)
        ensures
            css@ == rendered(self@),
    {
        let mut css = String::from_str("linear-gradient(");
        match &self.direction {
            Some(d) => {
                css.append(d.as_str());
                css.append(", ");
            },
            None => {},
        }
        css.append(join(&self.colors, ", ").as_str());
        css.append(")");
        css
    }
}

} // verus!
