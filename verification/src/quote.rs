use vstd::prelude::*;
use vstd::string::*;
use crate::text::push_char;

verus! {

/// The text `s` with every double quote removed.
pub open spec fn strip_quotes(s: Seq<char>) -> Seq<char>
    decreases s.len(),
{
    if s.len() == 0 {
        Seq::empty()
    } else {
        let rest = strip_quotes(s.drop_last());
        if s.last() == '"' {
            rest
        } else {
            rest.push(s.last())
        }
    }
}

/// A trait for stripping quotes from a string.
pub trait QuoteStripper {
    /// Strip double quotes from the string and return a new String.
    fn strip_quote(&self) -> String;
}

impl QuoteStripper for String {
    fn strip_quote(&self) -> (r: String)
        ensures
            r@ == strip_quotes(self@),
    {
        let s = self.as_str();
        let n = s.unicode_len();
        let mut result = String::new();
        let mut i: usize = 0;
        while i < n
            invariant
                s@ == self@,
                n == s@.len(),
                i <= n,
                result@ == strip_quotes(s@.take(i as int)),
            decreases n - i,
        {
            let c = s.get_char(i);
            assert(s@.take(i as int + 1).drop_last() =~= s@.take(i as int));
            if c != '"' {
                push_char(&mut result, c);
            }
            i = i + 1;
        }
        assert(s@.take(n as int) =~= s@);
        result
    }
}

/// No double quote is left after stripping.
pub proof fn lemma_strip_quotes_has_no_quote(s: Seq<char>)
    ensures
        !strip_quotes(s).contains('"'),
    decreases s.len(),
{
    if s.len() > 0 {
        lemma_strip_quotes_has_no_quote(s.drop_last());
        let rest = strip_quotes(s.drop_last());
        if s.last() != '"' {
            assert forall|i: int| 0 <= i < rest.push(s.last()).len() implies rest.push(
                s.last(),
            )[i] != '"' by {
                if i < rest.len() {
                    assert(rest.push(s.last())[i] == rest[i]);
                }
            }
        }
    }
}

/// A text without double quotes is left as it is.
pub proof fn lemma_strip_quotes_keeps_quote_free(s: Seq<char>)
    requires
        !s.contains('"'),
    ensures
        strip_quotes(s) == s,
    decreases s.len(),
{
    if s.len() > 0 {
        assert(!s.drop_last().contains('"')) by {
            if s.drop_last().contains('"') {
                let j = choose|j: int| 0 <= j < s.drop_last().len() && s.drop_last()[j] == '"';
                assert(s[j] == '"');
            }
        }
        lemma_strip_quotes_keeps_quote_free(s.drop_last());
        assert(s[s.len() - 1] != '"');
        assert(s.drop_last().push(s.last()) =~= s);
    }
}

/// Stripping quotes twice gives what stripping once gives.
pub proof fn lemma_strip_quotes_idempotent(s: Seq<char>)
    ensures
        strip_quotes(strip_quotes(s)) == strip_quotes(s),
{
    lemma_strip_quotes_has_no_quote(s);
    lemma_strip_quotes_keeps_quote_free(strip_quotes(s));
}

} // verus!
