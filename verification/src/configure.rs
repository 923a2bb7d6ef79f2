//! Lifecycle of the singleton configuration record.
//!
//! The host hands over the raw configuration slot, the vault balance and the
//! caller's balance; `Configure::handler` performs the whole administrative
//! attempt on them. The transition is specified once, as the spec function
//! [`step`], and the handler is proved to implement it exactly: create on
//! first use, authority-checked rewrite afterwards, deposit top-up and
//! capacity resize before every write, and one-time vault bootstrap.

use vstd::prelude::*;
use crate::codec::{
    decode_config, encode_config, spec_decode_config, spec_encode_config, CONFIG_RECORD_LEN,
};
use crate::config::Config;
use crate::errors::ContractError;

verus! {

/// Fixed amount that keeps the vault alive on the ledger, transferred from
/// the caller the first time the vault is seen empty.
pub const VAULT_BOOTSTRAP_LAMPORTS: u64 = 1_000_000;

/// A raw, program-addressable storage slot as the host hands it over.
pub struct StorageSlot {
    /// Whether this program already owns the slot.
    pub owned: bool,
    /// The storage deposit currently funded against the slot.
    pub lamports: u64,
    /// The slot's raw bytes.
    pub data: Vec<u8>,
}

/// Everything an administrative attempt reads and writes.
pub struct Configure {
    /// Identity of the caller paying for storage and funding the vault.
    pub payer_key: u64,
    /// The caller's spendable balance.
    pub payer_lamports: u64,
    /// The fixed-address slot holding the configuration record.
    pub config: StorageSlot,
    /// Balance of the program's escrow vault.
    pub global_vault_lamports: u64,
    /// Host deposit schedule: flat part of the deposit owed for a slot.
    pub rent_base: u64,
    /// Host deposit schedule: deposit owed per byte of slot data.
    pub rent_per_byte: u64,
}

/// Mathematical image of a [`Configure`] state.
#[verifier::ext_equal]
pub struct ConfigureView {
    pub payer_key: u64,
    pub payer_lamports: u64,
    pub config_owned: bool,
    pub config_lamports: u64,
    pub config_data: Seq<u8>,
    pub vault_lamports: u64,
    pub rent_base: u64,
    pub rent_per_byte: u64,
}

impl View for Configure {
    type V = ConfigureView;

    open spec fn view(&self) -> ConfigureView {
        ConfigureView {
            payer_key: self.payer_key,
            payer_lamports: self.payer_lamports,
            config_owned: self.config.owned,
            config_lamports: self.config.lamports,
            config_data: self.config.data@,
            vault_lamports: self.global_vault_lamports,
            rent_base: self.rent_base,
            rent_per_byte: self.rent_per_byte,
        }
    }
}

/// A slot not yet owned by this program is fresh: no data, no deposit.
pub open spec fn wf(m: ConfigureView) -> bool {
    !m.config_owned ==> m.config_lamports == 0 && m.config_data.len() == 0
}

/// The deposit the host requires for a slot of `len` bytes.
pub open spec fn deposit_for(m: ConfigureView, len: nat) -> int {
    m.rent_base + m.rent_per_byte * len
}

/// The record actually stored: on first creation the caller becomes the
/// authority; an authorized update is stored verbatim.
pub open spec fn stored_record(m: ConfigureView, new_config: Config) -> Config {
    if m.config_owned {
        new_config
    } else {
        Config { authority: m.payer_key, ..new_config }
    }
}

/// What the caller must be able to pay for the attempt to succeed: the slot
/// charge (full deposit on creation, the deposit deficit on update) plus the
/// vault bootstrap when the vault is still empty.
pub open spec fn required_spend(m: ConfigureView) -> int {
    let cost = deposit_for(m, CONFIG_RECORD_LEN as nat);
    let charge = if !m.config_owned {
        cost
    } else if cost > m.config_lamports {
        cost - m.config_lamports
    } else {
        0
    };
    let boot = if m.vault_lamports == 0 {
        VAULT_BOOTSTRAP_LAMPORTS as int
    } else {
        0
    };
    charge + boot
}

/// The write half of an attempt that passed its checks: charge the caller,
/// re-synchronize the slot's deposit and capacity to the payload, write the
/// bytes atomically, and bootstrap the vault if it is still empty.
pub open spec fn step_write(m: ConfigureView, bytes: Seq<u8>, charge: int) -> (ConfigureView,
    Result<(), ContractError>) {
    let boot = if m.vault_lamports == 0 {
        VAULT_BOOTSTRAP_LAMPORTS as int
    } else {
        0
    };
    if m.payer_lamports < charge + boot {
        (m, Err(ContractError::CollaboratorFailure))
    } else {
        (
            ConfigureView {
                payer_lamports: (m.payer_lamports - charge - boot) as u64,
                config_owned: true,
                config_lamports: (m.config_lamports + charge) as u64,
                config_data: bytes,
                vault_lamports: if m.vault_lamports == 0 {
                    VAULT_BOOTSTRAP_LAMPORTS
                } else {
                    m.vault_lamports
                },
                ..m
            },
            Ok(()),
        )
    }
}

/// The whole administrative attempt as one transition. A failed attempt
/// returns the state unchanged: no side effect of a failure is observable.
pub open spec fn step(m: ConfigureView, new_config: Config) -> (ConfigureView, Result<
    (),
    ContractError,
>) {
    let bytes = spec_encode_config(stored_record(m, new_config));
    let cost = deposit_for(m, bytes.len());
    if !m.config_owned {
        step_write(m, bytes, cost)
    } else {
        match spec_decode_config(m.config_data) {
            None => (m, Err(ContractError::IncorrectConfigAccount)),
            Some(prev) => {
                if prev.authority != m.payer_key {
                    (m, Err(ContractError::IncorrectAuthority))
                } else {
                    let charge = if cost > m.config_lamports {
                        cost - m.config_lamports
                    } else {
                        0
                    };
                    step_write(m, bytes, charge)
                }
            },
        }
    }
}

impl Configure {
    /// Creates or updates the configuration record, exactly as [`step`] says:
    ///
    /// - a slot this program does not own yet is created with the required
    ///   size and deposit at the caller's expense, and the caller is recorded
    ///   as the authority;
    /// - an owned slot is rewritten only when its type tag and payload decode
    ///   (else `IncorrectConfigAccount`) and the recorded authority is the
    ///   caller (else `IncorrectAuthority`);
    /// - before the write, the deposit is topped up from the caller when the
    ///   required deposit exceeds the funded one, and the slot is resized to
    ///   the new payload, so a write never overruns capacity;
    /// - an empty vault is bootstrapped once with a fixed amount;
    /// - a caller who cannot cover the charges fails with
    ///   `CollaboratorFailure`, and every failure leaves all state unchanged.
    pub fn handler(&mut self, new_config: Config) -> (result: Result<(), ContractError>)
        requires
            wf(old(self)@),
            deposit_for(old(self)@, CONFIG_RECORD_LEN as nat) <= u64::MAX,
        ensures
            result == step(old(self)@, new_config).1,
            final(self)@ == step(old(self)@, new_config).0,
    {
        let stored = if self.config.owned {
            new_config
        } else {
            Config { authority: self.payer_key, ..new_config }
        };
        let bytes = encode_config(&stored);
        let len_u64 = bytes.len() as u64;
        let cost = self.rent_base + self.rent_per_byte * len_u64;
        let charge: u64;
        if !self.config.owned {
            charge = cost;
        } else {
            match decode_config(&self.config.data) {
                None => {
                    return Err(ContractError::IncorrectConfigAccount);
                },
                Some(prev) => {
                    if prev.authority != self.payer_key {
                        return Err(ContractError::IncorrectAuthority);
                    }
                    charge = if cost > self.config.lamports {
                        cost - self.config.lamports
                    } else {
                        0
                    };
                },
            }
        }
        if self.payer_lamports < charge {
            return Err(ContractError::CollaboratorFailure);
        }
        if self.global_vault_lamports == 0 && self.payer_lamports - charge
            < VAULT_BOOTSTRAP_LAMPORTS {
            return Err(ContractError::CollaboratorFailure);
        }
        self.payer_lamports = self.payer_lamports - charge;
        self.config.owned = true;
        self.config.lamports = self.config.lamports + charge;
        self.config.data = bytes;
        if self.global_vault_lamports == 0 {
            self.payer_lamports = self.payer_lamports - VAULT_BOOTSTRAP_LAMPORTS;
            self.global_vault_lamports = VAULT_BOOTSTRAP_LAMPORTS;
        }
        proof {
            assert(self@ =~= step(old(self)@, new_config).0);
        }
        Ok(())
    }
}

/// Law: the first call on a fresh slot creates the record with the caller as
/// authority; afterwards the same caller may rewrite it, while any other
/// caller is rejected with `IncorrectAuthority` and changes nothing.
///
/// `again` and `intruder` are the state as a later attempt sees it: the slot
/// and vault exactly as the first call left them, with the later caller's
/// own key and balance.
pub proof fn lemma_configure_lifecycle(
    m: ConfigureView,
    c1: Config,
    c2: Config,
    again: ConfigureView,
    intruder: ConfigureView,
)
    requires
        wf(m),
        !m.config_owned,
        m.payer_lamports >= required_spend(m),
        again == (ConfigureView { payer_lamports: again.payer_lamports, ..step(m, c1).0 }),
        again.payer_lamports >= required_spend(again),
        intruder == (ConfigureView {
            payer_key: intruder.payer_key,
            payer_lamports: intruder.payer_lamports,
            ..step(m, c1).0
        }),
        intruder.payer_key != m.payer_key,
    ensures
        step(m, c1).1 == Ok::<(), ContractError>(()),
        spec_decode_config(step(m, c1).0.config_data) == Some(
            Config { authority: m.payer_key, ..c1 },
        ),
        step(again, c2).1 == Ok::<(), ContractError>(()),
        spec_decode_config(step(again, c2).0.config_data) == Some(c2),
        step(intruder, c2) == (intruder, Err::<(), ContractError>(ContractError::IncorrectAuthority)),
{
    crate::codec::lemma_config_round_trip(Config { authority: m.payer_key, ..c1 }, Seq::empty());
    crate::codec::lemma_config_round_trip(c2, Seq::empty());
}

/// Law: a successful call leaves the slot's capacity re-synchronized to the
/// new payload and its deposit at or above the required amount, so the write
/// never overruns capacity, and the bytes written are exactly the stored
/// record.
pub proof fn lemma_capacity_synchronized(m: ConfigureView, c: Config)
    requires
        wf(m),
        deposit_for(m, CONFIG_RECORD_LEN as nat) <= u64::MAX,
    ensures
        step(m, c).1 == Ok::<(), ContractError>(()) ==> {
            let m1 = step(m, c).0;
            &&& m1.config_data.len() == CONFIG_RECORD_LEN
            &&& m1.config_data == spec_encode_config(stored_record(m, c))
            &&& m1.config_lamports >= deposit_for(m, CONFIG_RECORD_LEN as nat)
        },
{
    crate::codec::lemma_config_round_trip(stored_record(m, c), Seq::empty());
    let bytes = spec_encode_config(stored_record(m, c));
    let cost = deposit_for(m, bytes.len());
    if step(m, c).1 == Ok::<(), ContractError>(()) && m.config_owned {
        let charge = if cost > m.config_lamports {
            cost - m.config_lamports
        } else {
            0
        };
        assert(step(m, c).0.config_lamports == m.config_lamports + charge);
    }
}

} // verus!
