//! Who initiated a ledger transaction, read from the subject that asked for it.
use vstd::prelude::*;
use crate::ids::{parse_uuid, parsed_uuid};
use crate::text::{chars_of, has_prefix, string_from_chars};

verus! {

/// The initiator of a ledger transaction.
#[derive(Debug, Clone, Copy, PartialEq, Eq)]
pub enum LedgerTransactionInitiator {
    System,
    User { id: u128 },
}

/// Why a subject names no initiator.
#[derive(Debug, Clone, Copy, PartialEq, Eq)]
pub enum LedgerTransactionInitiatorParseError {
    InvalidUserId,
    UnknownInitiator,
}

/// What the subject text `s` gives: `System` for `system:...`; for
/// `user:<id>`, the user with that UUID or `InvalidUserId`; else
/// `UnknownInitiator`.
pub open spec fn initiator_of(s: Seq<char>) -> Result<LedgerTransactionInitiator, LedgerTransactionInitiatorParseError> {
    if has_prefix(s, "system:"@) {
        Ok(LedgerTransactionInitiator::System)
    } else if has_prefix(s, "user:"@) {
        match parsed_uuid(s.skip(5)) {
            Some(id) => Ok(LedgerTransactionInitiator::User { id }),
            None => Err(LedgerTransactionInitiatorParseError::InvalidUserId),
        }
    } else {
        Err(LedgerTransactionInitiatorParseError::UnknownInitiator)
    }
}

fn starts_with_literal(text: &Vec<char>, lit: &Vec<char>) -> (r: bool)
    ensures
        r == has_prefix(text@, lit@),
{
    crate::text::chars_starts_with(text, lit)
}

impl LedgerTransactionInitiator {
    /// Reads the initiator from the text of an authorization subject.
    pub fn try_from_subject(subject: &str) -> (r: Result<LedgerTransactionInitiator, LedgerTransactionInitiatorParseError>)
        ensures
            r == initiator_of(subject@),
    {
        proof {
            reveal_strlit("system:");
            reveal_strlit("user:");
        }
        let raw = chars_of(subject);
        let system = vec!['s', 'y', 's', 't', 'e', 'm', ':'];
        assert(system@ =~= "system:"@);
        if starts_with_literal(&raw, &system) {
            return Ok(LedgerTransactionInitiator::System);
        }
        let user = vec!['u', 's', 'e', 'r', ':'];
        assert(user@ =~= "user:"@);
        if starts_with_literal(&raw, &user) {
            let mut rest: Vec<char> = Vec::new();
            let mut i: usize = 5;
            while i < raw.len()
                invariant
                    5 <= raw@.len(),
                    5 <= i <= raw@.len(),
                    rest@ =~= raw@.subrange(5, i as int),
                decreases raw.len() - i,
            {
                rest.push(raw[i]);
                i = i + 1;
                assert(rest@ =~= raw@.subrange(5, i as int));
            }
            assert(rest@ =~= raw@.skip(5));
            let id_text = string_from_chars(rest.as_slice());
            return match parse_uuid(id_text.as_str()) {
                Some(id) => Ok(LedgerTransactionInitiator::User { id }),
                None => Err(LedgerTransactionInitiatorParseError::InvalidUserId),
            };
        }
        Err(LedgerTransactionInitiatorParseError::UnknownInitiator)
    }
}

} // verus!
