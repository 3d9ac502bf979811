//! Optional L2 transaction attributes (integrator fees, nonce skipping) and
//! the options of a transaction submission.

use vstd::prelude::*;

use crate::constants::{FEE_TICK, MAX_ACCOUNT_INDEX};
use crate::error::SdkError;

verus! {

/// Optional attributes attached to an L2 transaction.
///
/// A value of zero means the same as an absent attribute.
#[derive(Debug, Clone, PartialEq, Eq, Structural)]
pub struct L2TxAttributes {
    pub integrator_account_index: Option<i64>,
    pub integrator_taker_fee: Option<u32>,
    pub integrator_maker_fee: Option<u32>,
    pub skip_nonce: Option<u8>,
}

/// Which attribute a wire entry carries.
#[derive(Debug, Clone, Copy, PartialEq, Eq, Structural)]
pub enum AttributeKind {
    IntegratorAccountIndex,
    IntegratorTakerFee,
    IntegratorMakerFee,
    SkipNonce,
}

/// One attribute as it appears on the wire, with its typed value.
#[derive(Debug, Clone, Copy, PartialEq, Eq, Structural)]
pub enum WireAttribute {
    IntegratorAccountIndex(i64),
    IntegratorTakerFee(u32),
    IntegratorMakerFee(u32),
    SkipNonce(u8),
}

/// The attribute kind that a wire key names: the numeric key or the field name.
pub open spec fn attribute_kind_of_key(key: Seq<char>) -> Option<AttributeKind> {
    if key == "1"@ || key == "IntegratorAccountIndex"@ {
        Some(AttributeKind::IntegratorAccountIndex)
    } else if key == "2"@ || key == "IntegratorTakerFee"@ {
        Some(AttributeKind::IntegratorTakerFee)
    } else if key == "3"@ || key == "IntegratorMakerFee"@ {
        Some(AttributeKind::IntegratorMakerFee)
    } else if key == "4"@ || key == "SkipNonce"@ {
        Some(AttributeKind::SkipNonce)
    } else {
        None
    }
}

impl AttributeKind {
    /// The kind named by a wire key (`"1"`..`"4"` or the attribute's name).
    pub fn from_wire_key(key: &str) -> (res: Option<AttributeKind>)
        ensures
            res == attribute_kind_of_key(key@),
    {
        if crate::text::str_eq(key, "1") || crate::text::str_eq(key, "IntegratorAccountIndex") {
            Some(AttributeKind::IntegratorAccountIndex)
        } else if crate::text::str_eq(key, "2") || crate::text::str_eq(key, "IntegratorTakerFee") {
            Some(AttributeKind::IntegratorTakerFee)
        } else if crate::text::str_eq(key, "3") || crate::text::str_eq(key, "IntegratorMakerFee") {
            Some(AttributeKind::IntegratorMakerFee)
        } else if crate::text::str_eq(key, "4") || crate::text::str_eq(key, "SkipNonce") {
            Some(AttributeKind::SkipNonce)
        } else {
            None
        }
    }
}

impl WireAttribute {
    /// The kind of attribute this entry carries.
    pub open spec fn spec_kind(self) -> AttributeKind {
        match self {
            WireAttribute::IntegratorAccountIndex(_) => AttributeKind::IntegratorAccountIndex,
            WireAttribute::IntegratorTakerFee(_) => AttributeKind::IntegratorTakerFee,
            WireAttribute::IntegratorMakerFee(_) => AttributeKind::IntegratorMakerFee,
            WireAttribute::SkipNonce(_) => AttributeKind::SkipNonce,
        }
    }

    /// The numeric key under which this attribute is serialized.
    pub fn wire_key(&self) -> (key: &'static str)
        ensures
            key@ == spec_wire_key(self.spec_kind()),
            attribute_kind_of_key(key@) == Some(self.spec_kind()),
    {
        proof {
            lemma_wire_key_names_kind(self.spec_kind());
        }
        match self {
            WireAttribute::IntegratorAccountIndex(_) => "1",
            WireAttribute::IntegratorTakerFee(_) => "2",
            WireAttribute::IntegratorMakerFee(_) => "3",
            WireAttribute::SkipNonce(_) => "4",
        }
    }
}

/// The numeric wire key of an attribute kind.
pub open spec fn spec_wire_key(k: AttributeKind) -> Seq<char> {
    match k {
        AttributeKind::IntegratorAccountIndex => "1"@,
        AttributeKind::IntegratorTakerFee => "2"@,
        AttributeKind::IntegratorMakerFee => "3"@,
        AttributeKind::SkipNonce => "4"@,
    }
}

/// The numeric key of a kind is read back as that kind.
pub proof fn lemma_wire_key_names_kind(k: AttributeKind)
    ensures
        attribute_kind_of_key(spec_wire_key(k)) == Some(k),
{
    reveal_strlit("1");
    reveal_strlit("2");
    reveal_strlit("3");
    reveal_strlit("4");
    reveal_strlit("IntegratorAccountIndex");
    reveal_strlit("IntegratorTakerFee");
    reveal_strlit("IntegratorMakerFee");
    assert("1"@[0] == '1');
    assert("2"@[0] == '2');
    assert("3"@[0] == '3');
    assert("4"@[0] == '4');
    assert("IntegratorAccountIndex"@[0] == 'I');
    assert("IntegratorTakerFee"@[0] == 'I');
    assert("IntegratorMakerFee"@[0] == 'I');
}

/// The attributes with zero values replaced by absence.
pub open spec fn normalized(a: L2TxAttributes) -> L2TxAttributes {
    L2TxAttributes {
        integrator_account_index: if a.integrator_account_index == Some(0i64) {
            None
        } else {
            a.integrator_account_index
        },
        integrator_taker_fee: if a.integrator_taker_fee == Some(0u32) {
            None
        } else {
            a.integrator_taker_fee
        },
        integrator_maker_fee: if a.integrator_maker_fee == Some(0u32) {
            None
        } else {
            a.integrator_maker_fee
        },
        skip_nonce: if a.skip_nonce == Some(0u8) {
            None
        } else {
            a.skip_nonce
        },
    }
}

/// The entries that serialization emits: the non-zero attributes, in key order.
pub open spec fn spec_wire_entries(a: L2TxAttributes) -> Seq<WireAttribute> {
    let s0 = Seq::<WireAttribute>::empty();
    let s1 = match a.integrator_account_index {
        Some(v) if v != 0 => s0.push(WireAttribute::IntegratorAccountIndex(v)),
        _ => s0,
    };
    let s2 = match a.integrator_taker_fee {
        Some(v) if v != 0 => s1.push(WireAttribute::IntegratorTakerFee(v)),
        _ => s1,
    };
    let s3 = match a.integrator_maker_fee {
        Some(v) if v != 0 => s2.push(WireAttribute::IntegratorMakerFee(v)),
        _ => s2,
    };
    match a.skip_nonce {
        Some(v) if v != 0 => s3.push(WireAttribute::SkipNonce(v)),
        _ => s3,
    }
}

/// The attributes after reading one wire entry: a zero value leaves them unchanged.
pub open spec fn with_wire_attribute(a: L2TxAttributes, w: WireAttribute) -> L2TxAttributes {
    match w {
        WireAttribute::IntegratorAccountIndex(v) => if v != 0 {
            L2TxAttributes { integrator_account_index: Some(v), ..a }
        } else {
            a
        },
        WireAttribute::IntegratorTakerFee(v) => if v != 0 {
            L2TxAttributes { integrator_taker_fee: Some(v), ..a }
        } else {
            a
        },
        WireAttribute::IntegratorMakerFee(v) => if v != 0 {
            L2TxAttributes { integrator_maker_fee: Some(v), ..a }
        } else {
            a
        },
        WireAttribute::SkipNonce(v) => if v != 0 {
            L2TxAttributes { skip_nonce: Some(v), ..a }
        } else {
            a
        },
    }
}

/// The attributes obtained by reading `entries` in order, starting from `a`.
pub open spec fn read_wire_entries(a: L2TxAttributes, entries: Seq<WireAttribute>) -> L2TxAttributes
    decreases entries.len(),
{
    if entries.len() == 0 {
        a
    } else {
        read_wire_entries(with_wire_attribute(a, entries[0]), entries.drop_first())
    }
}

/// The attributes with nothing set.
pub open spec fn empty_attributes() -> L2TxAttributes {
    L2TxAttributes {
        integrator_account_index: None,
        integrator_taker_fee: None,
        integrator_maker_fee: None,
        skip_nonce: None,
    }
}

impl L2TxAttributes {
    /// True when every attribute is absent or zero.
    pub open spec fn spec_is_empty(self) -> bool {
        &&& self.integrator_account_index.unwrap_or(0) == 0
        &&& self.integrator_taker_fee.unwrap_or(0) == 0
        &&& self.integrator_maker_fee.unwrap_or(0) == 0
        &&& self.skip_nonce.unwrap_or(0) == 0
    }

    /// The outcome of validating the attributes, the rules taken in order:
    /// integrator account index within `0..=MAX_ACCOUNT_INDEX`, each fee at most
    /// `FEE_TICK`, a present nonce-skip flag equal to 1, and a non-zero
    /// integrator account index whenever a fee is non-zero.
    pub open spec fn check(self) -> Result<(), SdkError> {
        if self.integrator_account_index is Some && !(0 <= self.integrator_account_index->0
            <= MAX_ACCOUNT_INDEX) {
            Err(SdkError::IntegratorAccountIndexInvalidRange)
        } else if self.integrator_taker_fee is Some && self.integrator_taker_fee->0 > FEE_TICK {
            Err(SdkError::IntegratorFeeInvalidRange)
        } else if self.integrator_maker_fee is Some && self.integrator_maker_fee->0 > FEE_TICK {
            Err(SdkError::IntegratorFeeInvalidRange)
        } else if self.skip_nonce is Some && self.skip_nonce->0 != 1 {
            Err(SdkError::NonceSkipAttributeInvalid)
        } else if (self.integrator_taker_fee.unwrap_or(0) != 0
            || self.integrator_maker_fee.unwrap_or(0) != 0)
            && self.integrator_account_index.unwrap_or(0) == 0 {
            Err(SdkError::IntegratorAccountIndexRequiredForNonZeroFees)
        } else {
            Ok(())
        }
    }

    /// Attributes that ask the exchange to skip the nonce check.
    pub fn skip_nonce_enabled() -> (res: Self)
        ensures
            res == (L2TxAttributes { skip_nonce: Some(1u8), ..empty_attributes() }),
    {
        Self {
            integrator_account_index: None,
            integrator_taker_fee: None,
            integrator_maker_fee: None,
            skip_nonce: Some(1),
        }
    }

    /// Whether no attribute carries a non-zero value.
    pub fn is_empty(&self) -> (res: bool)
        ensures
            res == self.spec_is_empty(),
    {
        self.integrator_account_index.unwrap_or(0) == 0 && self.integrator_taker_fee.unwrap_or(0)
            == 0 && self.integrator_maker_fee.unwrap_or(0) == 0 && self.skip_nonce.unwrap_or(0)
            == 0
    }

    /// Check the attribute rules; see [`L2TxAttributes::check`].
    pub fn validate(&self) -> (res: Result<(), SdkError>)
        ensures
            res == self.check(),
    {
        if let Some(index) = self.integrator_account_index {
            if !(0 <= index && index <= MAX_ACCOUNT_INDEX) {
                return Err(SdkError::IntegratorAccountIndexInvalidRange);
            }
        }
        if let Some(fee) = self.integrator_taker_fee {
            if fee as i64 > FEE_TICK {
                return Err(SdkError::IntegratorFeeInvalidRange);
            }
        }
        if let Some(fee) = self.integrator_maker_fee {
            if fee as i64 > FEE_TICK {
                return Err(SdkError::IntegratorFeeInvalidRange);
            }
        }
        if let Some(skip_nonce) = self.skip_nonce {
            if skip_nonce != 1 {
                return Err(SdkError::NonceSkipAttributeInvalid);
            }
        }
        let has_fees = self.integrator_taker_fee.unwrap_or(0) != 0
            || self.integrator_maker_fee.unwrap_or(0) != 0;
        if has_fees && self.integrator_account_index.unwrap_or(0) == 0 {
            return Err(SdkError::IntegratorAccountIndexRequiredForNonZeroFees);
        }
        Ok(())
    }

    /// The entries written when serializing: every non-zero attribute, in the
    /// order account index, taker fee, maker fee, nonce skip.
    pub fn wire_entries(&self) -> (res: Vec<WireAttribute>)
        ensures
            res@ == spec_wire_entries(*self),
    {
        let mut out: Vec<WireAttribute> = Vec::new();
        if let Some(v) = self.integrator_account_index {
            if v != 0 {
                out.push(WireAttribute::IntegratorAccountIndex(v));
            }
        }
        if let Some(v) = self.integrator_taker_fee {
            if v != 0 {
                out.push(WireAttribute::IntegratorTakerFee(v));
            }
        }
        if let Some(v) = self.integrator_maker_fee {
            if v != 0 {
                out.push(WireAttribute::IntegratorMakerFee(v));
            }
        }
        if let Some(v) = self.skip_nonce {
            if v != 0 {
                out.push(WireAttribute::SkipNonce(v));
            }
        }
        out
    }

    /// Record one entry read from the wire; zero values are treated as absent.
    pub fn set_wire_attribute(&mut self, entry: WireAttribute)
        ensures
            *final(self) == with_wire_attribute(*old(self), entry),
    {
        match entry {
            WireAttribute::IntegratorAccountIndex(v) => {
                if v != 0 {
                    self.integrator_account_index = Some(v);
                }
            },
            WireAttribute::IntegratorTakerFee(v) => {
                if v != 0 {
                    self.integrator_taker_fee = Some(v);
                }
            },
            WireAttribute::IntegratorMakerFee(v) => {
                if v != 0 {
                    self.integrator_maker_fee = Some(v);
                }
            },
            WireAttribute::SkipNonce(v) => {
                if v != 0 {
                    self.skip_nonce = Some(v);
                }
            },
        }
    }
}

impl Default for L2TxAttributes {
    fn default() -> (res: Self)
        ensures
            res == empty_attributes(),
    {
        Self {
            integrator_account_index: None,
            integrator_taker_fee: None,
            integrator_maker_fee: None,
            skip_nonce: None,
        }
    }
}

/// Reading back what serialization writes gives the attributes with their
/// zero values dropped: serialization loses nothing but zeros.
pub proof fn lemma_wire_roundtrip(a: L2TxAttributes)
    ensures
        read_wire_entries(empty_attributes(), spec_wire_entries(a)) == normalized(a),
{
    reveal_with_fuel(read_wire_entries, 5);
    let e = spec_wire_entries(a);
    assert(e.len() <= 4);
    if e.len() == 0 {
    } else if e.len() == 1 {
        assert(e.drop_first().len() == 0);
    } else if e.len() == 2 {
        assert(e.drop_first().drop_first().len() == 0);
    } else if e.len() == 3 {
        assert(e.drop_first().drop_first().drop_first().len() == 0);
    } else {
        assert(e.drop_first().drop_first().drop_first().drop_first().len() == 0);
    }
}

/// The attributes are empty exactly when serialization writes no entry.
pub proof fn lemma_empty_iff_no_wire_entries(a: L2TxAttributes)
    ensures
        a.spec_is_empty() <==> spec_wire_entries(a).len() == 0,
{
}

/// Options for building and sending one transaction.
#[derive(Debug, Clone)]
pub struct TransactOpts {
    pub from_account_index: Option<i64>,
    pub api_key_index: Option<u8>,
    pub expired_at: i64,
    pub nonce: Option<i64>,
    pub tx_attributes: Option<L2TxAttributes>,
    pub dry_run: bool,
}

impl Default for TransactOpts {
    fn default() -> (res: Self)
        ensures
            res.from_account_index is None,
            res.api_key_index is None,
            res.expired_at == 0,
            res.nonce is None,
            res.tx_attributes is None,
            !res.dry_run,
    {
        Self {
            from_account_index: None,
            api_key_index: None,
            expired_at: 0,
            nonce: None,
            tx_attributes: None,
            dry_run: false,
        }
    }
}

} // verus!
