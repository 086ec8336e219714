//! Names that are given out once.

use vstd::prelude::*;

use crate::crypto::{draw, draw_failed, drawn};
use crate::provider_failure::{is_id_byte, valid_id, CorrelationId};
use crate::text::{
    hex_fixed, hex_of, is_hex_digit, join, lemma_hex_fixed_digits, lemma_hex_fixed_is_injective,
    lemma_hex_fixed_len, lemma_hex_of_digits, power_of_16, to_hex, to_hex_fixed,
};
use vstd::string::*;
use vstd::utf8::*;

verus! {

/// The nonce of a request: the prefix of the process and the number of the request.
pub open spec fn nonce_text(prefix: Seq<char>, number: u64) -> Seq<char> {
    prefix + hex_fixed(number as nat, 16)
}

/// Gives out nonces, each once.
#[derive(Debug)]
pub struct RequestNonceGenerator {
    pub process_prefix: String,
    pub request_counter: u64,
}

impl RequestNonceGenerator {
    pub fn with_prefix(process_prefix: [u8; 16]) -> (generator: Self)
        ensures
            generator.process_prefix@ == hex_of(process_prefix@),
            generator.request_counter == 0,
    {
        RequestNonceGenerator {
            process_prefix: to_hex(process_prefix.as_slice()),
            request_counter: 0,
        }
    }

    /// A generator with a random prefix.
    pub fn new() -> (generator: Result<Self, String>)
        ensures
            match generator {
                Ok(generator) => generator.request_counter == 0 && exists|prefix: Seq<u8>|
                    #[trigger]
                    drawn(16, prefix) && prefix.len() == 16 && generator.process_prefix@ == hex_of(
                        prefix,
                    ),
                Err(message) => exists|reason: Seq<char>| #[trigger]
                    draw_failed(16, reason) && message@
                        == "request nonce random initialization failed: "@ + reason,
            },
    {
        match draw(16) {
            Ok(prefix) => {
                assert(drawn(16, prefix@));
                Ok(
                    RequestNonceGenerator {
                        process_prefix: to_hex(prefix.as_slice()),
                        request_counter: 0,
                    },
                )
            },
            Err(reason) => Err(
                join("request nonce random initialization failed: ", reason.as_str()),
            ),
        }
    }

    /// The next nonce. There are as many as the counter can count.
    pub fn next_nonce(&mut self) -> (nonce: String)
        requires
            old(self).request_counter < u64::MAX,
        ensures
            final(self).process_prefix == old(self).process_prefix,
            final(self).request_counter == old(self).request_counter + 1,
            nonce@ == nonce_text(old(self).process_prefix@, final(self).request_counter),
    {
        self.request_counter += 1;
        join(self.process_prefix.as_str(), to_hex_fixed(self.request_counter, 16).as_str())
    }
}

proof fn lemma_numbers_fit(number: u64)
    ensures
        (number as nat) < power_of_16(16),
{
    reveal_with_fuel(power_of_16, 17);
}

/// One generator never gives out a nonce twice: different numbers have different nonces.
pub proof fn law_nonces_are_unique(prefix: Seq<char>, a: u64, b: u64)
    requires
        nonce_text(prefix, a) == nonce_text(prefix, b),
    ensures
        a == b,
{
    let x = hex_fixed(a as nat, 16);
    let y = hex_fixed(b as nat, 16);
    lemma_hex_fixed_len(a as nat, 16);
    lemma_hex_fixed_len(b as nat, 16);
    assert(x =~= nonce_text(prefix, a).skip(prefix.len() as int));
    assert(y =~= nonce_text(prefix, b).skip(prefix.len() as int));
    lemma_numbers_fit(a);
    lemma_numbers_fit(b);
    lemma_hex_fixed_is_injective(a as nat, b as nat, 16);
}

/// The name under which a request to Codex is reported.
pub open spec fn correlation_text(sequence: u64) -> Seq<char> {
    "codex-"@ + hex_fixed(sequence as nat, 16)
}

/// Numbers the requests to Codex.
#[derive(Debug)]
pub struct CorrelationSequence {
    pub next: u64,
}

proof fn lemma_correlation_is_valid(sequence: u64)
    ensures
        valid_id(correlation_text(sequence)),
{
    let text = correlation_text(sequence);
    reveal_strlit("codex-");
    lemma_hex_fixed_digits(sequence as nat, 16);
    assert("codex-"@.len() == 6);
    assert forall|i: int| 0 <= i < text.len() implies is_id_byte(#[trigger] text[i] as u8)
        && text[i] as u32 <= 127 by {
        if i >= 6 {
            assert(text[i] == hex_fixed(sequence as nat, 16)[i - 6]);
        } else {
            assert(text[i] == "codex-"@[i]);
        }
    }
}

impl CorrelationSequence {
    pub fn new() -> (sequence: Self)
        ensures
            sequence.next == 1,
    {
        CorrelationSequence { next: 1 }
    }

    /// The name of the next request. After the last number the count starts again.
    pub fn next_codex_correlation_id(&mut self) -> (id: CorrelationId)
        ensures
            id@ == correlation_text(old(self).next),
            final(self).next == (if old(self).next == u64::MAX {
                0
            } else {
                old(self).next + 1
            }),
    {
        let sequence = self.next;
        self.next = if sequence == u64::MAX {
            0
        } else {
            sequence + 1
        };
        proof {
            lemma_correlation_is_valid(sequence);
        }
        let text = join("codex-", to_hex_fixed(sequence, 16).as_str());
        CorrelationId::new(text.as_str()).unwrap()
    }
}

/// Every nonce is a text of 48 lower-case hexadecimal digits.
pub proof fn law_nonces_are_id_safe(prefix: Seq<u8>, number: u64)
    requires
        prefix.len() == 16,
    ensures
        nonce_text(hex_of(prefix), number).len() == 48,
        forall|i: int|
            0 <= i < 48 ==> is_hex_digit(#[trigger] nonce_text(hex_of(prefix), number)[i]),
{
    lemma_hex_of_digits(prefix);
    lemma_hex_fixed_digits(number as nat, 16);
    let text = nonce_text(hex_of(prefix), number);
    assert forall|i: int| 0 <= i < 48 implies is_hex_digit(#[trigger] text[i]) by {
        if i < 32 {
            assert(text[i] == hex_of(prefix)[i]);
        } else {
            assert(text[i] == hex_fixed(number as nat, 16)[i - 32]);
        }
    }
}

} // verus!
