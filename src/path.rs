use vstd::prelude::*;

verus! {

/// The character of a decimal digit.
pub open spec fn digit_char(d: nat) -> char {
    if d == 0 { '0' }
    else if d == 1 { '1' }
    else if d == 2 { '2' }
    else if d == 3 { '3' }
    else if d == 4 { '4' }
    else if d == 5 { '5' }
    else if d == 6 { '6' }
    else if d == 7 { '7' }
    else if d == 8 { '8' }
    else { '9' }
}

/// `n` written in decimal, without leading zeros.
pub open spec fn decimal(n: nat) -> Seq<char>
    decreases n,
{
    if n < 10 {
        seq![digit_char(n)]
    } else {
        decimal(n / 10).push(digit_char(n % 10))
    }
}

/// The file name of a server's socket for a port: `.s.PGSQL.<port>`.
pub open spec fn socket_file_name_spec(port: u16) -> Seq<char> {
    seq!['.', 's', '.', 'P', 'G', 'S', 'Q', 'L', '.'] + decimal(port as nat)
}

/// `name` joined under the directory `dir`, as a relative path is pushed onto
/// a path: a separator goes between them unless `dir` is empty or already
/// ends with one.
pub open spec fn join_path(dir: Seq<char>, name: Seq<char>) -> Seq<char> {
    if dir.len() == 0 || dir.last() == '/' {
        dir + name
    } else {
        dir.push('/') + name
    }
}

/// The path of the socket that a local server listens on.
pub open spec fn socket_path_spec(dir: Seq<char>, port: u16) -> Seq<char> {
    join_path(dir, socket_file_name_spec(port))
}

fn digit_str(d: u16) -> (r: &'static str)
    requires
        d < 10,
    ensures
        r@ == seq![digit_char(d as nat)],
{
    proof {
        reveal_strlit("0");
        reveal_strlit("1");
        reveal_strlit("2");
        reveal_strlit("3");
        reveal_strlit("4");
        reveal_strlit("5");
        reveal_strlit("6");
        reveal_strlit("7");
        reveal_strlit("8");
        reveal_strlit("9");
    }
    if d == 0 { "0" }
    else if d == 1 { "1" }
    else if d == 2 { "2" }
    else if d == 3 { "3" }
    else if d == 4 { "4" }
    else if d == 5 { "5" }
    else if d == 6 { "6" }
    else if d == 7 { "7" }
    else if d == 8 { "8" }
    else { "9" }
}

/// Appends `n` in decimal to `out`.
fn push_decimal(out: &mut String, n: u16)
    ensures
        final(out)@ == old(out)@ + decimal(n as nat),
    decreases n,
{
    if n < 10 {
        out.append(digit_str(n));
    } else {
        push_decimal(out, n / 10);
        out.append(digit_str(n % 10));
        proof {
            assert(decimal(n as nat) == decimal((n / 10) as nat).push(digit_char((n % 10) as nat)));
        }
    }
}

/// The file name of a server's socket for `port`, such as `.s.PGSQL.5432`.
pub fn socket_file_name(port: u16) -> (r: String)
    ensures
        r@ == socket_file_name_spec(port),
{
    let mut name = String::from_str(".s.PGSQL.");
    proof {
        reveal_strlit(".s.PGSQL.");
    }
    push_decimal(&mut name, port);
    name
}

/// The path of the socket that a local server in the directory `dir`
/// listens on for `port`: the directory joined with `.s.PGSQL.<port>`.
pub fn socket_path(dir: &str, port: u16) -> (r: String)
    ensures
        r@ == socket_path_spec(dir@, port),
{
    let name = socket_file_name(port);
    let mut path = String::from_str(dir);
    let n = dir.unicode_len();
    if n > 0 && dir.get_char(n - 1) != '/' {
        path.append("/");
        proof {
            reveal_strlit("/");
        }
    }
    path.append(name.as_str());
    path
}

} // verus!
