use vstd::prelude::*;
use vstd::string::*;

verus! {

/// A text wrapped in one double quote on each side.
pub open spec fn quoted(s: Seq<char>) -> Seq<char> {
    seq!['"'] + s + seq!['"']
}

/// A text with each double quote replaced by a backslash and a double quote;
/// every other character is kept as it is.
pub open spec fn escaped(s: Seq<char>) -> Seq<char>
    decreases s.len(),
{
    if s.len() == 0 {
        seq![]
    } else if s.last() == '"' {
        escaped(s.drop_last()) + seq!['\\', '"']
    } else {
        escaped(s.drop_last()).push(s.last())
    }
}

/// The tokens joined into one text, with a single space between neighbours.
pub open spec fn joined(tokens: Seq<Seq<char>>) -> Seq<char>
    decreases tokens.len(),
{
    if tokens.len() == 0 {
        seq![]
    } else if tokens.len() == 1 {
        tokens[0]
    } else {
        joined(tokens.drop_last()) + seq![' '] + tokens.last()
    }
}

/// The views of a list of strings.
pub open spec fn texts(v: Seq<String>) -> Seq<Seq<char>> {
    v.map_values(|s: String| s@)
}

/// Wraps a path in double quotes; the path itself is not escaped.
pub fn quote_path(path: &str) -> (r: String)
    ensures
        r@ == quoted(path@),
{
    let mut r = String::from_str("\"");
    r.append(path);
    r.append("\"");
    proof {
        reveal_strlit("\"");
    }
    r
}

/// Escapes every double quote of `args` with a backslash, so that the text
/// can stand inside the quoted value of MO2's `-a` option.
pub fn escape_for_mo2_args(args: &str) -> (r: String)
    ensures
        r@ == escaped(args@),
{
    let n = args.unicode_len();
    let mut r = String::new();
    assert(args@.take(0) =~= seq![]);
    for i in 0..n
        invariant
            n == args@.len(),
            r@ == escaped(args@.take(i as int)),
    {
        let c = args.get_char(i);
        let ghost before = args@.take(i as int);
        assert(args@.take(i + 1).drop_last() =~= before);
        assert(args@.take(i + 1).last() == c);
        if c == '"' {
            proof {
                reveal_strlit("\\\"");
            }
            r.append("\\\"");
            assert("\\\""@ =~= seq!['\\', '"']);
        } else {
            let one = args.substring_char(i, i + 1);
            assert(one@ =~= seq![c]);
            r.append(one);
        }
    }
    assert(args@.take(n as int) =~= args@);
    r
}

/// Joins the arguments with one space between neighbours, in their order.
pub fn join_args(args: &Vec<String>) -> (r: String)
    ensures
        r@ == joined(texts(args@)),
{
    let mut r = String::new();
    assert(texts(args@).take(0) =~= seq![]);
    for i in 0..args.len()
        invariant
            r@ == joined(texts(args@).take(i as int)),
    {
        let ghost all = texts(args@);
        assert(all.take(i + 1).drop_last() =~= all.take(i as int));
        assert(all.take(i + 1).last() == args@[i as int]@);
        if i > 0 {
            proof {
                reveal_strlit(" ");
            }
            r.append(" ");
            assert(" "@ =~= seq![' ']);
        }
        r.append(args[i].as_str());
        assert(i == 0 ==> all.take(i + 1) =~= seq![args@[i as int]@]);
    }
    assert(texts(args@).take(args.len() as int) =~= texts(args@));
    r
}

} // verus!
