//! Reading `key: value` parameters from the lines of a configuration file.
use vstd::prelude::*;

use crate::common::data_types;

verus! {

/// The words of a line, as `split_whitespace` separates them.
pub uninterp spec fn whitespace_words(line: Seq<char>) -> Seq<Seq<char>>;

/// Calls `str::split_whitespace`. Trusted: the words depend on the line alone.
#[verifier::external_body]
fn split_words(line: &String) -> (res: Vec<String>)
    ensures
        data_types::string_values(res@) == whitespace_words(line@),
{
    line.split_whitespace().map(|w| w.to_string()).collect()
}

/// Calls `String::pop`. Trusted: the last character is removed, if there is one.
#[verifier::external_body]
fn drop_last_char(text: &mut String)
    ensures
        final(text)@ == (if old(text)@.len() > 0 {
            old(text)@.drop_last()
        } else {
            old(text)@
        }),
{
    text.pop();
}

/// The parameter a line gives: its first word without its last character (the `:`), and
/// the last of the words after the first; a missing part is empty.
pub open spec fn line_parameter(line: Seq<char>) -> (Seq<char>, Seq<char>) {
    let words = whitespace_words(line);
    let key = if words.len() > 0 {
        if words[0].len() > 0 {
            words[0].drop_last()
        } else {
            words[0]
        }
    } else {
        Seq::empty()
    };
    let value = if words.len() > 1 {
        words.last()
    } else {
        Seq::empty()
    };
    (key, value)
}

/// The parameters of the lines, one per line, or none at all when there are fewer lines
/// than `param_qty`.
pub open spec fn file_parameters(lines: Seq<String>, param_qty: nat) -> Seq<(Seq<char>, Seq<char>)> {
    if lines.len() < param_qty {
        Seq::empty()
    } else {
        lines.map_values(|l: String| line_parameter(l@))
    }
}

/// The values of a list of parameters.
pub open spec fn parameter_values(params: Seq<(String, String)>) -> Seq<(Seq<char>, Seq<char>)> {
    params.map_values(|p: (String, String)| (p.0@, p.1@))
}

/// The parameter of one line.
fn line_to_parameter(line: &String) -> (res: (String, String))
    ensures
        (res.0@, res.1@) == line_parameter(line@),
{
    let words = split_words(line);
    proof {
        assert(data_types::string_values(words@).len() == words@.len());
    }
    let mut key = String::new();
    let mut value = String::new();
    if words.len() > 0 {
        let mut first = words[0].clone();
        assert(data_types::string_values(words@)[0] == words@[0]@);
        drop_last_char(&mut first);
        key = first;
    }
    if words.len() > 1 {
        let last = words.len() - 1;
        assert(data_types::string_values(words@)[last as int] == words@[last as int]@);
        value = words[last].clone();
    }
    (key, value)
}

/// Reads the lines of a configuration file as `key: value` parameters, one per line; with
/// fewer lines than `param_qty` there are none.
pub fn get_file_parameters(lines: Vec<String>, param_qty: usize) -> (res: Vec<(String, String)>)
    ensures
        parameter_values(res@) == file_parameters(lines@, param_qty as nat),
{
    let mut params: Vec<(String, String)> = Vec::new();
    let mut i: usize = 0;
    while i < lines.len()
        invariant
            i <= lines@.len(),
            params@.len() == i,
            forall|k: int| 0 <= k < i ==> #[trigger] parameter_values(params@)[k] == line_parameter(
                lines@[k]@,
            ),
        decreases lines@.len() - i,
    {
        let p = line_to_parameter(&lines[i]);
        let ghost before = params@;
        params.push(p);
        assert forall|k: int| 0 <= k < i + 1 implies #[trigger] parameter_values(params@)[k]
            == line_parameter(lines@[k]@) by {
            if k < i {
                assert(params@[k] == before[k]);
                assert(parameter_values(before)[k] == line_parameter(lines@[k]@));
            }
        }
        i += 1;
    }
    if params.len() < param_qty {
        let empty: Vec<(String, String)> = Vec::new();
        assert(parameter_values(empty@) =~= file_parameters(lines@, param_qty as nat));
        return empty;
    }
    assert(parameter_values(params@) =~= file_parameters(lines@, param_qty as nat));
    params
}

} // verus!
