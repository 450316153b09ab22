//! The services of the client, as one value to hand around.

use vstd::prelude::*;
use crate::services::characterai::CharacterAiService;
use crate::services::secrets::SecretsService;

pub mod characterai;
pub mod secrets;

verus! {

/// The secret store and the remote service, side by side.
#[derive(Debug, Clone, Copy)]
pub struct AppServices {
    pub secrets: SecretsService,
    pub cai: CharacterAiService,
}

impl AppServices {
    pub fn new() -> (r: Self) {
        AppServices { secrets: SecretsService::new(), cai: CharacterAiService::new() }
    }
}

} // verus!
