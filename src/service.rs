//! Embedding a sequence of optional texts, one at a time and in order.
use vstd::prelude::*;

verus! {

/// `out` is what `embed` may return for some string whose characters are `text`.
pub open spec fn embedded_as<T, E, F: Fn(&str) -> Result<Vec<T>, E>>(
    embed: F,
    text: Seq<char>,
    out: Result<Vec<T>, E>,
) -> bool {
    exists|s: &str| s@ == text && #[trigger] embed.ensures((s,), out)
}

/// The output entry for one input entry: empty for an absent text, otherwise
/// a vector that `embed` returned for that text.
pub open spec fn entry_matches<T, E, F: Fn(&str) -> Result<Vec<T>, E>>(
    embed: F,
    text: Option<String>,
    v: Vec<T>,
) -> bool {
    match text {
        None => v@.len() == 0,
        Some(s) => embedded_as(embed, s@, Ok(v)),
    }
}

/// An absent text, or a present one for which `embed` may succeed.
pub open spec fn embedded_ok<T, E, F: Fn(&str) -> Result<Vec<T>, E>>(
    embed: F,
    text: Option<String>,
) -> bool {
    match text {
        None => true,
        Some(s) => exists|v: Vec<T>| embedded_as(embed, s@, Ok(v)),
    }
}

/// Embeds each present text with `embed`, in order; an absent text gets an
/// empty vector and `embed` is not called for it. The first failure of
/// `embed` ends the work and is returned: every present text before it was
/// embedded.
pub fn embed_many<T, E, F: Fn(&str) -> Result<Vec<T>, E>>(
    texts: &Vec<Option<String>>,
    embed: F,
) -> (r: Result<Vec<Vec<T>>, E>)
    requires
        forall|s: &str| embed.requires((s,)),
    ensures
        r matches Ok(out) ==> out@.len() == texts@.len() && forall|i: int|
            0 <= i < texts@.len() ==> entry_matches(embed, texts@[i], #[trigger] out@[i]),
        r matches Err(e) ==> exists|i: int|
            0 <= i < texts@.len() && (#[trigger] texts@[i] matches Some(s) && embedded_as(
                embed,
                s@,
                Err(e),
            )) && forall|j: int| 0 <= j < i ==> embedded_ok(embed, #[trigger] texts@[j]),
{
    let mut out: Vec<Vec<T>> = Vec::new();
    let mut i: usize = 0;
    while i < texts.len()
        invariant
            forall|s: &str| embed.requires((s,)),
            0 <= i <= texts@.len(),
            out@.len() == i,
            forall|j: int| 0 <= j < i ==> entry_matches(embed, texts@[j], #[trigger] out@[j]),
            forall|j: int| 0 <= j < i ==> embedded_ok(embed, #[trigger] texts@[j]),
        decreases texts@.len() - i,
    {
        match &texts[i] {
            None => {
                assert(embedded_ok(embed, texts@[i as int]));
                out.push(Vec::new());
            },
            Some(s) => {
                let e = embed(s.as_str());
                match e {
                    Ok(v) => {
                        assert(embedded_as(embed, s@, Ok(v)));
                        assert(embedded_ok(embed, texts@[i as int]));
                        out.push(v);
                    },
                    Err(err) => {
                        assert(embedded_as(embed, s@, Err(err)));
                        assert(texts@[i as int] matches Some(t) && embedded_as(embed, t@, Err(err)));
                        return Err(err);
                    },
                }
            },
        }
        i = i + 1;
    }
    Ok(out)
}

} // verus!
