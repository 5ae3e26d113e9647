use vstd::prelude::*;
use vstd::string::*;

verus! {

/// The path that results from resolving `name` against the directory `dir`:
/// an absolute `name` stands alone, any other is appended to `dir`, with a
/// single `/` between them unless `dir` is empty or already ends in one.
pub open spec fn join_spec(dir: Seq<char>, name: Seq<char>) -> Seq<char> {
    if name.len() > 0 && name[0] == '/' {
        name
    } else if dir.len() == 0 || dir.last() == '/' {
        dir + name
    } else {
        dir + seq!['/'] + name
    }
}

/// Resolves `name` against the directory `dir`.
pub fn join(dir: &str, name: &str) -> (path: String)
    ensures
        path@ == join_spec(dir@, name@),
{
    let name_len = name.unicode_len();
    if name_len > 0 && name.get_char(0) == '/' {
        return name.to_owned();
    }
    let dir_len = dir.unicode_len();
    let mut path = dir.to_owned();
    if dir_len > 0 && dir.get_char(dir_len - 1) != '/' {
        proof {
            reveal_strlit("/");
        }
        path.append("/");
        assert("/"@ =~= seq!['/']);
    }
    path.append(name);
    path
}

/// Two different names, neither empty nor absolute, stand at different
/// paths in one directory.
pub proof fn lemma_join_distinct(dir: Seq<char>, first: Seq<char>, second: Seq<char>)
    requires
        first.len() > 0,
        second.len() > 0,
        first[0] != '/',
        second[0] != '/',
        first != second,
    ensures
        join_spec(dir, first) != join_spec(dir, second),
{
    let prefix = if dir.len() == 0 || dir.last() == '/' {
        dir
    } else {
        dir + seq!['/']
    };
    assert(join_spec(dir, first) =~= prefix + first);
    assert(join_spec(dir, second) =~= prefix + second);
    if prefix + first == prefix + second {
        assert((prefix + first).subrange(prefix.len() as int, (prefix + first).len() as int)
            =~= first);
        assert((prefix + second).subrange(prefix.len() as int, (prefix + second).len() as int)
            =~= second);
        assert(first == second);
    }
}

} // verus!
