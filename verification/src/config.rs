//! Configuration records. Loading from and saving to disk are jobs of the
//! embedding application; the core only fixes the recognized options and
//! their defaults.

use vstd::prelude::*;
use vstd::string::*;

verus! {

/// Flow-control and cadence options of the sequencer, all non-negative.
#[derive(Debug, Clone)]
pub struct SequencerConfig {
    pub max_pending_transactions: usize,
    pub max_pending_programs: usize,
    pub batch_interval_seconds: u64,
    pub max_batch_size: usize,
    pub max_programs_per_batch: usize,
}

/// Prover options.
#[derive(Debug, Clone)]
pub struct ProverConfig {
    pub proving_key_path: String,
    pub max_batch_size: usize,
}

/// Verifier options.
#[derive(Debug, Clone)]
pub struct VerifierConfig {
    pub verification_key_path: String,
}

/// The single configuration record of the engine.
#[derive(Debug, Clone)]
pub struct Config {
    pub zk_params_path: String,
    pub state_db_path: String,
    pub prover_config: ProverConfig,
    pub verifier_config: VerifierConfig,
    pub sequencer_config: SequencerConfig,
}

impl Default for SequencerConfig {
    /// Pending caps 1000/1000, a one-minute batch interval, 100 transactions
    /// and 100 programs per batch.
    fn default() -> (r: SequencerConfig)
        ensures
            r.max_pending_transactions == 1000,
            r.max_pending_programs == 1000,
            r.batch_interval_seconds == 60,
            r.max_batch_size == 100,
            r.max_programs_per_batch == 100,
    {
        SequencerConfig {
            max_pending_transactions: 1000,
            max_pending_programs: 1000,
            batch_interval_seconds: 60,
            max_batch_size: 100,
            max_programs_per_batch: 100,
        }
    }
}

impl Default for Config {
    /// The default file locations together with the default sequencer,
    /// prover and verifier options.
    fn default() -> (r: Config)
        ensures
            r.zk_params_path@ == "zk_params.json"@,
            r.state_db_path@ == "state.db"@,
            r.prover_config.proving_key_path@ == "proving_key.bin"@,
            r.prover_config.max_batch_size == 100,
            r.verifier_config.verification_key_path@ == "verification_key.bin"@,
            r.sequencer_config.max_pending_transactions == 1000,
            r.sequencer_config.max_pending_programs == 1000,
            r.sequencer_config.batch_interval_seconds == 60,
            r.sequencer_config.max_batch_size == 100,
            r.sequencer_config.max_programs_per_batch == 100,
    {
        Config {
            zk_params_path: String::from_str("zk_params.json"),
            state_db_path: String::from_str("state.db"),
            prover_config: ProverConfig {
                proving_key_path: String::from_str("proving_key.bin"),
                max_batch_size: 100,
            },
            verifier_config: VerifierConfig {
                verification_key_path: String::from_str("verification_key.bin"),
            },
            sequencer_config: SequencerConfig {
                max_pending_transactions: 1000,
                max_pending_programs: 1000,
                batch_interval_seconds: 60,
                max_batch_size: 100,
                max_programs_per_batch: 100,
            },
        }
    }
}

} // verus!
