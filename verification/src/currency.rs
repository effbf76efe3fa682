//! Currencies and the statistic each one is recorded under. Amounts are
//! the game's.

use vstd::prelude::*;

verus! {

/// Kinds of money.
#[derive(Debug, Clone, Copy, PartialEq, Eq, Structural)]
pub enum CurrencyType {
    Gold,
    Silver,
    Copper,
    Special,
}

/// The name of the custom statistic that mirrors an amount of this
/// currency: `currency_` and the currency's name in lowercase.
pub open spec fn currency_stat_key(t: CurrencyType) -> Seq<char> {
    match t {
        CurrencyType::Gold => "currency_gold"@,
        CurrencyType::Silver => "currency_silver"@,
        CurrencyType::Copper => "currency_copper"@,
        CurrencyType::Special => "currency_special"@,
    }
}

/// The currency's name: the name of its kind.
pub open spec fn currency_name(t: CurrencyType) -> Seq<char> {
    match t {
        CurrencyType::Gold => "Gold"@,
        CurrencyType::Silver => "Silver"@,
        CurrencyType::Copper => "Copper"@,
        CurrencyType::Special => "Special"@,
    }
}

/// A character with ASCII capitals turned to small letters.
pub open spec fn ascii_lower_char(c: char) -> char {
    if 'A' <= c && c <= 'Z' { ((c as u32) + 32) as char } else { c }
}

/// A text with ASCII capitals turned to small letters.
pub open spec fn ascii_lower(s: Seq<char>) -> Seq<char> {
    s.map_values(|c: char| ascii_lower_char(c))
}

impl CurrencyType {
    /// The statistic this currency is recorded under.
    pub fn stat_key(&self) -> (r: String)
        ensures
            r@ == currency_stat_key(*self),
    {
        match self {
            CurrencyType::Gold => "currency_gold".to_owned(),
            CurrencyType::Silver => "currency_silver".to_owned(),
            CurrencyType::Copper => "currency_copper".to_owned(),
            CurrencyType::Special => "currency_special".to_owned(),
        }
    }

    /// The currency's name as shown to the player.
    pub fn display_name(&self) -> (r: String)
        ensures
            r@ == currency_name(*self),
    {
        match self {
            CurrencyType::Gold => "Gold".to_owned(),
            CurrencyType::Silver => "Silver".to_owned(),
            CurrencyType::Copper => "Copper".to_owned(),
            CurrencyType::Special => "Special".to_owned(),
        }
    }
}

/// Different currencies are recorded under different statistics.
pub proof fn law_stat_keys_distinct(a: CurrencyType, b: CurrencyType)
    requires
        a != b,
    ensures
        currency_stat_key(a) != currency_stat_key(b),
{
    reveal_strlit("currency_gold");
    reveal_strlit("currency_silver");
    reveal_strlit("currency_copper");
    reveal_strlit("currency_special");
    assert(currency_stat_key(a).len() != currency_stat_key(b).len()
        || currency_stat_key(a)[9] != currency_stat_key(b)[9]);
}


/// Each currency is recorded under `currency_` followed by its own name
/// in small letters.
pub proof fn law_stat_key_is_named_after_currency(t: CurrencyType)
    ensures
        currency_stat_key(t) == "currency_"@ + ascii_lower(currency_name(t)),
{
    reveal_strlit("currency_");
    reveal_strlit("currency_gold");
    reveal_strlit("currency_silver");
    reveal_strlit("currency_copper");
    reveal_strlit("currency_special");
    reveal_strlit("Gold");
    reveal_strlit("Silver");
    reveal_strlit("Copper");
    reveal_strlit("Special");
    assert(currency_stat_key(t) =~= "currency_"@ + ascii_lower(currency_name(t)));
}

} // verus!
