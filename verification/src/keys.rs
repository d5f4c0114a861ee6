//! Key-pair locations and the key-setup walk.
//!
//! The key files live at their conventional places under the user's home
//! directory. Setting up key-based access is a short decision sequence:
//! generate the key pair if it is missing, generate the public key if that
//! alone is missing, try a key-based connection, and if that fails install
//! the public key on the remote host with the password and try once more.
//! The checks, the generation commands and the connections are performed
//! by the caller; the machine here decides what comes next and which stage
//! a failure belongs to.

use vstd::prelude::*;
use vstd::string::StringExecFns;

verus! {

/// The conventional private-key location under the home directory `home`.
pub fn private_key_path_in(home: &str) -> (r: String)
    ensures
        r@ == home@ + "/.ssh/id_rsa"@,
{
    String::from_str(home).concat("/.ssh/id_rsa")
}

/// The conventional public-key location under the home directory `home`.
pub fn public_key_path_in(home: &str) -> (r: String)
    ensures
        r@ == home@ + "/.ssh/id_rsa.pub"@,
{
    String::from_str(home).concat("/.ssh/id_rsa.pub")
}

/// Relies on dirs::home_dir: the platform's home directory of the current
/// user, if the platform knows one. The value depends on the environment,
/// so nothing is promised of it.
#[verifier::external_body]
fn platform_home_dir() -> (r: Option<String>) {
    dirs::home_dir().map(|p| p.to_string_lossy().into_owned())
}

/// The conventional private-key path, when the platform knows a home
/// directory for the current user.
pub fn private_key_path() -> (r: Option<String>)
    ensures
        r matches Some(p) ==> exists|h: Seq<char>| p@ == h + "/.ssh/id_rsa"@,
{
    match platform_home_dir() {
        Some(home) => {
            let p = private_key_path_in(home.as_str());
            proof {
                assert(p@ == home@ + "/.ssh/id_rsa"@);
            }
            Some(p)
        },
        None => None,
    }
}

/// The conventional public-key path, when the platform knows a home
/// directory for the current user.
pub fn public_key_path() -> (r: Option<String>)
    ensures
        r matches Some(p) ==> exists|h: Seq<char>| p@ == h + "/.ssh/id_rsa.pub"@,
{
    match platform_home_dir() {
        Some(home) => {
            let p = public_key_path_in(home.as_str());
            proof {
                assert(p@ == home@ + "/.ssh/id_rsa.pub"@);
            }
            Some(p)
        },
        None => None,
    }
}

/// Where the key-setup walk stands: what the caller must check or do next.
#[derive(Clone, Copy, Debug, PartialEq, Eq, Structural)]
pub enum SetupPhase {
    /// Ask whether the private key file exists.
    CheckPrivateKey,
    /// Run the key-pair generation command.
    GeneratingKeys,
    /// Ask whether the public key file exists.
    CheckPublicKey,
    /// Derive the public key from the private one.
    GeneratingPublicKey,
    /// Try a key-based connection.
    Testing,
    /// Install the public key remotely, using the password.
    Transferring,
    /// Try the key-based connection once more after the transfer.
    Retesting,
    /// Key-based access works.
    Done,
    /// Setup failed at the stage the fault names.
    Failed,
}

/// Which stage of the key setup failed.
#[derive(Clone, Copy, Debug, PartialEq, Eq, Structural)]
pub enum SetupFault {
    /// The private key could not be generated.
    GeneratePrivateKey,
    /// The public key could not be generated.
    GeneratePublicKey,
    /// The public key could not be transferred to the remote host.
    TransferKey,
    /// Key-based access still fails after the transfer.
    VerifyAfterTransfer,
}

/// Drives the key-setup walk.
pub struct KeySetup {
    pub phase: SetupPhase,
    pub fault: Option<SetupFault>,
}

/// The walk after the pending check or action answered `ok`: a present key
/// skips its generation, a failed test goes through the transfer, and a
/// hard failure names its stage.
pub open spec fn setup_after(m: KeySetup, ok: bool) -> KeySetup {
    match m.phase {
        SetupPhase::CheckPrivateKey => if ok {
            KeySetup { phase: SetupPhase::CheckPublicKey, fault: None }
        } else {
            KeySetup { phase: SetupPhase::GeneratingKeys, fault: None }
        },
        SetupPhase::GeneratingKeys => if ok {
            KeySetup { phase: SetupPhase::CheckPublicKey, fault: None }
        } else {
            KeySetup { phase: SetupPhase::Failed, fault: Some(SetupFault::GeneratePrivateKey) }
        },
        SetupPhase::CheckPublicKey => if ok {
            KeySetup { phase: SetupPhase::Testing, fault: None }
        } else {
            KeySetup { phase: SetupPhase::GeneratingPublicKey, fault: None }
        },
        SetupPhase::GeneratingPublicKey => if ok {
            KeySetup { phase: SetupPhase::Testing, fault: None }
        } else {
            KeySetup { phase: SetupPhase::Failed, fault: Some(SetupFault::GeneratePublicKey) }
        },
        SetupPhase::Testing => if ok {
            KeySetup { phase: SetupPhase::Done, fault: None }
        } else {
            KeySetup { phase: SetupPhase::Transferring, fault: None }
        },
        SetupPhase::Transferring => if ok {
            KeySetup { phase: SetupPhase::Retesting, fault: None }
        } else {
            KeySetup { phase: SetupPhase::Failed, fault: Some(SetupFault::TransferKey) }
        },
        SetupPhase::Retesting => if ok {
            KeySetup { phase: SetupPhase::Done, fault: None }
        } else {
            KeySetup { phase: SetupPhase::Failed, fault: Some(SetupFault::VerifyAfterTransfer) }
        },
        _ => m,
    }
}

impl KeySetup {
    pub open spec fn in_progress(&self) -> bool {
        self.phase != SetupPhase::Done && self.phase != SetupPhase::Failed
    }

    pub open spec fn wf(&self) -> bool {
        (self.phase == SetupPhase::Failed) <==> (self.fault is Some)
    }

    /// Starts the walk: the private-key check comes first.
    pub fn new() -> (r: KeySetup)
        ensures
            r.wf(),
            r.phase == SetupPhase::CheckPrivateKey,
            r.fault is None,
    {
        KeySetup { phase: SetupPhase::CheckPrivateKey, fault: None }
    }

    /// Absorbs the answer to the pending check, or the outcome of the
    /// pending action.
    pub fn step(&mut self, ok: bool)
        requires
            old(self).wf(),
            old(self).in_progress(),
        ensures
            final(self).wf(),
            *final(self) == setup_after(*old(self), ok),
    {
        let next: KeySetup = match self.phase {
            SetupPhase::CheckPrivateKey => {
                if ok {
                    KeySetup { phase: SetupPhase::CheckPublicKey, fault: None }
                } else {
                    KeySetup { phase: SetupPhase::GeneratingKeys, fault: None }
                }
            },
            SetupPhase::GeneratingKeys => {
                if ok {
                    KeySetup { phase: SetupPhase::CheckPublicKey, fault: None }
                } else {
                    KeySetup {
                        phase: SetupPhase::Failed,
                        fault: Some(SetupFault::GeneratePrivateKey),
                    }
                }
            },
            SetupPhase::CheckPublicKey => {
                if ok {
                    KeySetup { phase: SetupPhase::Testing, fault: None }
                } else {
                    KeySetup { phase: SetupPhase::GeneratingPublicKey, fault: None }
                }
            },
            SetupPhase::GeneratingPublicKey => {
                if ok {
                    KeySetup { phase: SetupPhase::Testing, fault: None }
                } else {
                    KeySetup {
                        phase: SetupPhase::Failed,
                        fault: Some(SetupFault::GeneratePublicKey),
                    }
                }
            },
            SetupPhase::Testing => {
                if ok {
                    KeySetup { phase: SetupPhase::Done, fault: None }
                } else {
                    KeySetup { phase: SetupPhase::Transferring, fault: None }
                }
            },
            SetupPhase::Transferring => {
                if ok {
                    KeySetup { phase: SetupPhase::Retesting, fault: None }
                } else {
                    KeySetup { phase: SetupPhase::Failed, fault: Some(SetupFault::TransferKey) }
                }
            },
            _ => {
                if ok {
                    KeySetup { phase: SetupPhase::Done, fault: None }
                } else {
                    KeySetup {
                        phase: SetupPhase::Failed,
                        fault: Some(SetupFault::VerifyAfterTransfer),
                    }
                }
            },
        };
        *self = next;
    }
}

/// Key-based access is owed on both clean paths: with both key files
/// present and the test passing, and with a failed first test followed by
/// a successful transfer and retest.
pub proof fn lemma_setup_success_owed(m: KeySetup)
    requires
        m.phase == SetupPhase::CheckPrivateKey,
    ensures
        ({
            let straight = setup_after(setup_after(setup_after(m, true), true), true);
            straight.phase == SetupPhase::Done && straight.fault is None
        }),
        ({
            let mended = setup_after(
                setup_after(setup_after(setup_after(setup_after(m, true), true), false), true),
                true,
            );
            mended.phase == SetupPhase::Done && mended.fault is None
        }),
{
}

} // verus!
