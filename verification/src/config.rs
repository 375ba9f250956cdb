use crate::text::push_char;
use vstd::prelude::*;

verus! {

/// Settings of the server.
#[derive(Clone)]
pub struct AppConfig {
    pub port: u16,
    pub database: DatabaseConfig,
}

/// Where and how to reach the database.
#[derive(Clone)]
pub struct DatabaseConfig {
    pub username: String,
    pub password: String,
    pub host: String,
    pub port: u16,
    pub name: String,
}

/// The decimal digit for `d` in `0..10`.
pub open spec fn digit_char(d: nat) -> char {
    (48 + d) as char
}

/// The decimal text of `n`, without sign or leading zeros.
pub open spec fn decimal(n: nat) -> Seq<char>
    decreases n,
{
    if n < 10 {
        seq![digit_char(n)]
    } else {
        decimal(n / 10).push(digit_char(n % 10))
    }
}

/// The number that the decimal digits `s` spell.
pub open spec fn digits_value(s: Seq<char>) -> int
    decreases s.len(),
{
    if s.len() == 0 {
        0
    } else {
        digits_value(s.drop_last()) * 10 + (s.last() as int - 48)
    }
}

/// The decimal text of `n` is made of the digits `0`-`9`, spells `n` back,
/// and starts with `0` only when it is `0` itself.
pub proof fn law_decimal_spells_number(n: nat)
    ensures
        decimal(n).len() > 0,
        forall|i: int| 0 <= i < decimal(n).len() ==> '0' <= #[trigger] decimal(n)[i] <= '9',
        digits_value(decimal(n)) == n,
        decimal(n)[0] == '0' ==> n == 0,
    decreases n,
{
    if n >= 10 {
        law_decimal_spells_number(n / 10);
        let d = decimal(n);
        assert(d.drop_last() =~= decimal(n / 10));
        assert(d[0] == decimal(n / 10)[0]);
        assert((n / 10) * 10 + n % 10 == n) by (nonlinear_arith);
        assert(d.last() == digit_char(n % 10));
        assert(d.last() as int == 48 + n % 10);
        assert(digits_value(d) == digits_value(d.drop_last()) * 10 + (d.last() as int - 48));
    } else {
        let d = decimal(n);
        assert(d.drop_last() =~= Seq::<char>::empty());
        assert(d.last() as int == 48 + n);
        assert(digits_value(d) == digits_value(d.drop_last()) * 10 + (d.last() as int - 48));
    }
}

/// Appends the decimal text of `n` to `s`.
fn push_decimal(s: &mut String, n: u16)
    ensures
        final(s)@ == old(s)@ + decimal(n as nat),
    decreases n,
{
    if n >= 10 {
        push_decimal(s, n / 10);
    }
    let d = (n % 10) as u8;
    push_char(s, (48u8 + d) as char);
    proof {
        assert(final(s)@ =~= old(s)@ + decimal(n as nat));
    }
}

/// `postgres://{username}:{password}@{host}:{port}/`: the address of the
/// database server, without a database name.
pub open spec fn server_address(c: DatabaseConfig) -> Seq<char> {
    "postgres://"@ + c.username@ + ":"@ + c.password@ + "@"@ + c.host@ + ":"@ + decimal(
        c.port as nat,
    ) + "/"@
}

impl DatabaseConfig {
    /// The connection string of the database:
    /// `postgres://{username}:{password}@{host}:{port}/{name}`.
    pub fn conn_string(&self) -> (s: String)
        ensures
            s@ == server_address(*self) + self.name@,
    {
        let mut s = self.conn_string_without_db();
        s.append(self.name.as_str());
        s
    }

    /// The connection string of the database server, without a database name:
    /// `postgres://{username}:{password}@{host}:{port}/`.
    pub fn conn_string_without_db(&self) -> (s: String)
        ensures
            s@ == server_address(*self),
    {
        let mut s = String::from_str("postgres://");
        s.append(self.username.as_str());
        s.append(":");
        s.append(self.password.as_str());
        s.append("@");
        s.append(self.host.as_str());
        s.append(":");
        push_decimal(&mut s, self.port);
        s.append("/");
        s
    }
}

} // verus!
