use std::sync::Arc;

use vmm_core::capabilities::api_key_capability::{
    forward_needs_prompt, forward_on_provided, forward_render, ApiKeyCapability,
    ApiKeyValidationError, ApiSubmitResponse, KeyAction, RequiresApiKey,
};
use vmm_core::capabilities::base::{Capability, CapabilityRef};
use vmm_core::capabilities::builder::{CapabilityBuilder, CapabilityError};
use vmm_core::capabilities::configurable_mods::{
    forward_get_configurable, ConfigurableModsBehavior, ConfigurableModsCapability,
};
use vmm_core::capabilities::form::{Field, FieldType, FormResponse, FormSchema};
use vmm_core::capabilities::ids;
use vmm_core::capabilities::owner::OwnerRef;
use vmm_core::registry::{ProviderSource, RegistryError};
use vmm_core::runtime::context::ContextBuilder;
use vmm_core::traits::game_provider::{GameIcon, GameMetadata, GameProvider};
use vmm_core::traits::mod_provider::ModProvider;
use vmm_core::traits::provider::Provider;

struct DummyModProvider {
    id: String,
    caps: Vec<CapabilityRef>,
}

impl std::fmt::Debug for DummyModProvider {
    fn fmt(&self, f: &mut std::fmt::Formatter<'_>) -> std::fmt::Result {
        f.debug_struct("DummyModProvider").field("id", &self.id).finish()
    }
}

impl DummyModProvider {
    fn new(id: &str) -> Arc<Self> {
        OwnerRef::new_cyclic(|owner: &OwnerRef<DummyModProvider>| {
            let caps = CapabilityBuilder::new_from_weak(owner.clone_ref())
                .api_key()
                .finish();
            DummyModProvider {
                id: id.to_string(),
                caps,
            }
        })
    }
}

impl Provider for DummyModProvider {
    fn id(&self) -> &'static str {
        "dummyModProvider"
    }

    fn capabilities(&self) -> &[CapabilityRef] {
        &self.caps
    }
}

impl ModProvider for DummyModProvider {}

impl RequiresApiKey for DummyModProvider {
    fn on_provided(&self, value: &Vec<ApiSubmitResponse>) -> Result<KeyAction, ApiKeyValidationError> {
        let first = value.first().ok_or(ApiKeyValidationError::Empty)?;
        if first.value.trim().is_empty() {
            return Err(ApiKeyValidationError::Empty);
        }
        if first.value.len() < 16 {
            return Err(ApiKeyValidationError::TooShort { min_len: 16 });
        }
        Ok(KeyAction::Store)
    }

    fn needs_prompt(&self, existing_key: Option<&str>) -> bool {
        match existing_key {
            None => true,
            Some(k) if k.is_empty() => true,
            Some(_) => false,
        }
    }

    fn render(&self) -> Result<FormSchema, CapabilityError> {
        Ok(FormSchema {
            title: format!("Enter key for {}", self.id),
            description: Some("Description".into()),
            fields: vec![Field {
                id: "api_key".into(),
                label: "api_key".into(),
                field_type: FieldType::Password,
                regex: None,
                help: None,
                placeholder: Some("Paste key here".into()),
                value: None,
            }],
        })
    }
}

struct DummyGameProvider {
    id: &'static str,
    mod_provider: String,
}

impl DummyGameProvider {
    fn new(id: &'static str, mod_provider: &str) -> Self {
        Self {
            id,
            mod_provider: mod_provider.to_string(),
        }
    }
}

impl Provider for DummyGameProvider {
    fn id(&self) -> &'static str {
        self.id
    }

    fn capabilities(&self) -> &[CapabilityRef] {
        &[]
    }
}

impl GameProvider for DummyGameProvider {
    fn mod_provider_id(&self) -> &str {
        &self.mod_provider
    }

    fn metadata(&self) -> GameMetadata {
        GameMetadata {
            id: self.id.to_string(),
            display_name: "Dummy Game".into(),
            short_name: "DG".into(),
            icon: GameIcon::Path("/icon.png".into()),
            provider_source: ProviderSource::Plugin("plugin-x".into()),
        }
    }

    fn get_external_id(&self) -> &str {
        "external-123"
    }
}

struct Configurable {
    caps: Vec<CapabilityRef>,
}

impl ConfigurableModsBehavior for Configurable {
    fn get_configurable(&self, mod_id: &str) -> Option<FormSchema> {
        Some(FormSchema {
            title: mod_id.to_string(),
            description: None,
            fields: vec![],
        })
    }

    fn apply_configuration(&self, _mod_id: &str, _response: Vec<FormResponse>) {}
}

fn api_key_view(cap: &CapabilityRef) -> &dyn RequiresApiKey {
    cap.as_requires_api_key().expect("wrong capability type")
}

#[test]
fn api_key_cap_validates() {
    let provider = DummyModProvider::new("dummy");
    let cap = provider
        .capabilities()
        .iter()
        .find(|o| o.id() == ids::REQUIRES_API_KEY)
        .expect("Api key cap missing");

    let api_cap = api_key_view(cap);

    assert!(api_cap.needs_prompt(None));
    let schema = api_cap.render().expect("form schema should exist");
    let resp = ApiSubmitResponse {
        id: schema.fields[0].id.clone(),
        value: "ABCDEFGHIJKLMNOP".to_string(),
    };
    let responses = vec![resp];
    let result = api_cap.on_provided(&responses);
    assert!(matches!(result, Ok(KeyAction::Store)))
}

#[test]
fn api_key_cap_error_cases() {
    let provider = DummyModProvider::new("dummy");
    let cap = provider
        .capabilities()
        .iter()
        .find(|o| o.id() == ids::REQUIRES_API_KEY)
        .unwrap();
    let api_cap = api_key_view(cap);

    let schema = api_cap.render().expect("form schema should exist");

    let resp_empty = ApiSubmitResponse {
        id: schema.fields[0].id.clone(),
        value: "".to_string(),
    };
    let responses_empty = vec![resp_empty];
    assert!(matches!(
        api_cap.on_provided(&responses_empty),
        Err(ApiKeyValidationError::Empty)
    ));

    let resp_short = ApiSubmitResponse {
        id: schema.fields[0].id.clone(),
        value: "SHORT".to_string(),
    };
    let responses_short = vec![resp_short];
    assert!(matches!(
        api_cap.on_provided(&responses_short),
        Err(ApiKeyValidationError::TooShort { min_len: 16 })
    ));

    let resp_valid = ApiSubmitResponse {
        id: schema.fields[0].id.clone(),
        value: "ABCDEFGHIJKLMNOP".to_string(),
    };
    let responses_valid = vec![resp_valid];
    assert!(matches!(
        api_cap.on_provided(&responses_valid),
        Ok(KeyAction::Store)
    ));
}

#[test]
#[should_panic(expected = "form schema should exist: ProviderDropped")]
fn api_key_cap_provider_dropped_behaviors() {
    let cap: CapabilityRef = {
        let provider = DummyModProvider::new("dummy");
        provider.capabilities()[0].clone()
    };

    let api_cap = api_key_view(&cap);

    let schema = api_cap.render().expect("form schema should exist");
    let resp = ApiSubmitResponse {
        id: schema.fields[0].id.clone(),
        value: "ABCDEFGHIJKLMNOP".to_string(),
    };
    let responses = vec![resp];
    let _ = api_cap.on_provided(&responses);
}

#[test]
fn api_key_cap_provider_dropped_render_errors() {
    let cap: CapabilityRef = {
        let provider = DummyModProvider::new("dummy");
        provider.capabilities()[0].clone()
    };

    let api_cap = api_key_view(&cap);

    let res = api_cap.render();
    assert!(res.is_err());
}

#[test]
fn dropped_provider_yields_unavailable_outcomes() {
    let cap: CapabilityRef = {
        let provider = DummyModProvider::new("dummy");
        provider.capabilities()[0].clone()
    };
    let api_cap = api_key_view(&cap);
    assert!(!api_cap.needs_prompt(None));
    assert!(!api_cap.needs_prompt(Some("")));
    let values = vec![ApiSubmitResponse {
        id: "api_key".into(),
        value: "ABCDEFGHIJKLMNOP".into(),
    }];
    assert_eq!(
        api_cap.on_provided(&values),
        Err(ApiKeyValidationError::ProviderError)
    );
    assert!(matches!(api_cap.render(), Err(CapabilityError::ProviderDropped)));
    api_cap.on_rejected();
}

#[test]
fn forwarding_helpers_without_owner() {
    let gone: Result<Arc<DummyModProvider>, CapabilityError> = Err(CapabilityError::ProviderDropped);
    assert!(!forward_needs_prompt(&gone, None));
    assert_eq!(
        forward_on_provided(&gone, &vec![]),
        Err(ApiKeyValidationError::ProviderError)
    );
    assert!(matches!(forward_render(&gone), Err(CapabilityError::ProviderDropped)));
    let gone_game: Result<Arc<Configurable>, CapabilityError> = Err(CapabilityError::ProviderDropped);
    assert!(forward_get_configurable(&gone_game, "m").is_none());
}

#[test]
fn forwarding_helpers_with_owner() {
    let provider = DummyModProvider::new("alive");
    let alive: Result<Arc<DummyModProvider>, CapabilityError> = Ok(provider.clone());
    assert!(forward_needs_prompt(&alive, None));
    assert!(!forward_needs_prompt(&alive, Some("key")));
    let schema = forward_render(&alive).unwrap();
    assert_eq!(schema.title, "Enter key for alive");
    assert_eq!(
        forward_on_provided(&alive, &vec![]),
        Err(ApiKeyValidationError::Empty)
    );
}

#[test]
fn api_key_capability_inner_tracks_owner() {
    let provider = DummyModProvider::new("tracked");
    let cap = ApiKeyCapability::new(OwnerRef::from_arc(&provider));
    assert!(cap.inner().is_ok());
    assert_eq!(cap.id(), ids::REQUIRES_API_KEY);
    assert!(cap.as_requires_api_key().is_some());
    assert!(cap.as_configurable_mods().is_none());
    drop(provider);
    assert!(matches!(cap.inner(), Err(CapabilityError::ProviderDropped)));
}

#[test]
fn configurable_mods_capability_delegates() {
    let game = OwnerRef::new_cyclic(|_owner: &OwnerRef<Configurable>| Configurable { caps: vec![] });
    let cap = ConfigurableModsCapability::new(OwnerRef::from_arc(&game));
    assert_eq!(cap.id(), ids::CONFIGURABLE_MODS);
    assert!(cap.as_configurable_mods().is_some());
    assert!(cap.as_requires_api_key().is_none());
    assert_eq!(cap.get_configurable("mod-1").unwrap().title, "mod-1");
    cap.apply_configuration("mod-1", vec![]);
    assert!(game.caps.is_empty());
    drop(game);
    assert!(cap.get_configurable("mod-1").is_none());
    assert!(matches!(cap.inner(), Err(CapabilityError::ProviderDropped)));
    cap.apply_configuration("mod-1", vec![]);
}

#[test]
fn capability_cast_ext_helper() {
    let provider = DummyModProvider::new("dummy");
    let cap = provider.capabilities()[0].clone();
    let dyn_ref: &dyn Capability = &*cap;
    let typed = dyn_ref.as_requires_api_key();
    assert!(typed.is_some());
    assert_eq!(dyn_ref.id(), ids::REQUIRES_API_KEY);
}

#[test]
fn capability_builder_api_key_chain() {
    let provider = DummyModProvider::new("builder-test");
    let caps = CapabilityBuilder::new_from_arc(&provider)
        .api_key()
        .finish();

    assert_eq!(caps.len(), 1);
    assert_eq!(caps[0].id(), ids::REQUIRES_API_KEY);
}

#[test]
fn capability_builder_keeps_order_and_count() {
    let provider = DummyModProvider::new("many");
    let empty = CapabilityBuilder::new_from_arc(&provider).finish();
    assert!(empty.is_empty());
    let caps = CapabilityBuilder::new_from_arc(&provider)
        .api_key()
        .api_key()
        .finish();
    assert_eq!(caps.len(), 2);
    assert!(caps.iter().all(|c| c.id() == ids::REQUIRES_API_KEY));
}

struct SimpleCap;

impl Capability for SimpleCap {
    fn id(&self) -> &'static str {
        "test.simple"
    }
}

// A hand-written capability keeps the id it declares; capabilities are
// recovered through their behaviour views, which this one does not offer.
#[test]
fn capability_macro_assigns_id_and_downcast() {
    let cap: CapabilityRef = Arc::new(SimpleCap);
    assert_eq!(cap.id(), "test.simple");
    let dyn_ref: &dyn Capability = &*cap;
    assert!(dyn_ref.as_requires_api_key().is_none());
    assert!(dyn_ref.as_configurable_mods().is_none());
}

#[test]
fn find_capability_by_id() {
    let provider = DummyModProvider::new("finder");
    let found = provider.find_capability(ids::REQUIRES_API_KEY);
    assert!(found.is_some());
    assert_eq!(found.unwrap().id(), ids::REQUIRES_API_KEY);
    assert!(provider.find_capability(ids::CONFIGURABLE_MODS).is_none());
    assert_eq!(provider.register(), "dummyModProvider");
}

#[test]
fn register_and_freeze() {
    let mut b = ContextBuilder::new();
    b.register_mod_provider("mod:provider", DummyModProvider::new("mod:provider"), ProviderSource::Plugin("plug-a".into())).unwrap();
    b.register_mod_provider("core:base", DummyModProvider::new("core:base"), ProviderSource::Core).unwrap();

    let gp = Arc::new(DummyGameProvider::new("game-x", "mod:provider"));
    b.register_game_provider(gp, ProviderSource::Plugin("plug-a".into())).unwrap();

    let ctx = b.freeze();
    assert_eq!(ctx.list_mod_providers().len(), 2);
    assert_eq!(ctx.list_games().len(), 1);
}

#[test]
fn reserved_core_id_error() {
    let mut b: ContextBuilder<DummyModProvider, DummyGameProvider> = ContextBuilder::new();
    let err = b.register_mod_provider("core:evil", DummyModProvider::new("core:evil"), ProviderSource::Plugin("plug".into())).unwrap_err();
    assert!(matches!(err, RegistryError::ReservedCoreId(_)))
}

#[test]
fn missing_dependency_game_registration() {
    let mut b: ContextBuilder<DummyModProvider, DummyGameProvider> = ContextBuilder::new();
    let gp = Arc::new(DummyGameProvider::new("game-y", "mod:missing"));
    let err = b.register_game_provider(gp, ProviderSource::Plugin("plug".into())).unwrap_err();
    assert!(matches!(err, RegistryError::NotFound(_)));
}

#[test]
fn extended_info_error_without_active_game() {
    let mut b = ContextBuilder::new();
    b.register_mod_provider("mod:p", DummyModProvider::new("mod:p"), ProviderSource::Plugin("plug".into())).unwrap();
    let gp = Arc::new(DummyGameProvider::new("game-a", "mod:p"));
    b.register_game_provider(gp, ProviderSource::Plugin("plug".into())).unwrap();
    let ctx = b.freeze();

    let err = ctx.extended_info_target("mod-xyz").unwrap_err();

    assert!(matches!(err, RegistryError::NotFound(_)));
}

#[test]
fn reserved_namespace_allowed_for_core() {
    let mut b: ContextBuilder<DummyModProvider, DummyGameProvider> = ContextBuilder::new();
    let err = b.register_mod_provider("core:x", DummyModProvider::new("a"), ProviderSource::Plugin("p".into())).unwrap_err();
    assert_eq!(err, RegistryError::ReservedCoreId("core:x".into()));
    assert!(b.register_mod_provider("core:x", DummyModProvider::new("a"), ProviderSource::Core).is_ok());
    assert!(b.register_mod_provider("corex:y", DummyModProvider::new("b"), ProviderSource::Plugin("p".into())).is_ok());
}

#[test]
fn duplicate_provider_after_normalization() {
    let mut b: ContextBuilder<DummyModProvider, DummyGameProvider> = ContextBuilder::new();
    b.register_mod_provider("Foo", DummyModProvider::new("a"), ProviderSource::Core).unwrap();
    let err = b.register_mod_provider("foo", DummyModProvider::new("b"), ProviderSource::Core).unwrap_err();
    assert_eq!(err, RegistryError::ProviderAlreadyExists("foo".into()));
    let err = b.register_mod_provider(" FOO ", DummyModProvider::new("c"), ProviderSource::Core).unwrap_err();
    assert_eq!(err, RegistryError::ProviderAlreadyExists("foo".into()));
    let err = b.register_mod_provider("f o o", DummyModProvider::new("d"), ProviderSource::Core).unwrap_err();
    assert_eq!(err, RegistryError::InvalidId("f o o".into()));
    let ctx = b.freeze();
    assert_eq!(ctx.list_mod_providers().len(), 1);
}

#[test]
fn game_registration_errors() {
    let mut b: ContextBuilder<DummyModProvider, DummyGameProvider> = ContextBuilder::new();
    b.register_mod_provider("mod:a", DummyModProvider::new("a"), ProviderSource::Core).unwrap();
    let err = b.register_game_provider(Arc::new(DummyGameProvider::new("g", "mod:none")), ProviderSource::Core).unwrap_err();
    assert_eq!(err, RegistryError::NotFound("mod:none".into()));
    b.register_game_provider(Arc::new(DummyGameProvider::new("G", "MOD:A")), ProviderSource::Core).unwrap();
    let err = b.register_game_provider(Arc::new(DummyGameProvider::new(" g ", "mod:a")), ProviderSource::Core).unwrap_err();
    assert_eq!(err, RegistryError::GameAlreadyExists("g".into()));
    let err = b.register_game_provider(Arc::new(DummyGameProvider::new("bad id", "mod:a")), ProviderSource::Core).unwrap_err();
    assert_eq!(err, RegistryError::InvalidId("bad id".into()));
    let err = b.register_game_provider(Arc::new(DummyGameProvider::new("h", "bad dep")), ProviderSource::Core).unwrap_err();
    assert_eq!(err, RegistryError::InvalidId("bad dep".into()));
    let err = b.register_game("h", "mod:b", Arc::new(DummyGameProvider::new("h", "mod:b")), ProviderSource::Core).unwrap_err();
    assert_eq!(err, RegistryError::NotFound("mod:b".into()));
    let ctx = b.freeze();
    let games = ctx.list_games();
    assert_eq!(games.len(), 1);
    assert_eq!(games[0].0, "g");
    assert_eq!(games[0].2, "mod:a");
}

#[test]
fn lookups_after_freeze() {
    let mut b: ContextBuilder<DummyModProvider, DummyGameProvider> = ContextBuilder::new();
    let p = DummyModProvider::new("a");
    b.register_mod_provider("Mod:A", p.clone(), ProviderSource::Plugin("plug".into())).unwrap();
    b.register_game_provider(Arc::new(DummyGameProvider::new("game-x", "mod:a")), ProviderSource::Core).unwrap();
    let ctx = b.freeze();
    let got = ctx.get_mod_provider(" MOD:a").unwrap();
    assert!(Arc::ptr_eq(&got, &p));
    assert_eq!(ctx.get_mod_provider("mod:b").err(), Some(RegistryError::NotFound("mod:b".into())));
    assert_eq!(ctx.get_mod_provider("$").err(), Some(RegistryError::InvalidId("$".into())));
    assert_eq!(ctx.get_game_provider("GAME-X").unwrap().id(), "game-x");
    assert_eq!(ctx.get_game_provider("game-y").err(), Some(RegistryError::NotFound("game-y".into())));
    let meta = ctx.get_metadata("game-x").unwrap();
    assert_eq!(meta.display_name, "Dummy Game");
    assert_eq!(ctx.get_metadata("game-z").err(), Some(RegistryError::NotFound("game-z".into())));
    let rows = ctx.list_mod_providers();
    assert_eq!(rows[0].0, "mod:a");
    assert!(matches!(&rows[0].1, ProviderSource::Plugin(name) if name == "plug"));
    assert_eq!(ctx.required_provider_of("game-x"), Some("mod:a".to_string()));
    assert_eq!(ctx.required_provider_of("GAME-X"), None);
}

#[test]
fn failed_activation_keeps_previous_game() {
    let mut b: ContextBuilder<DummyModProvider, DummyGameProvider> = ContextBuilder::new();
    b.register_mod_provider("mod:a", DummyModProvider::new("a"), ProviderSource::Core).unwrap();
    b.register_game_provider(Arc::new(DummyGameProvider::new("game-x", "mod:a")), ProviderSource::Core).unwrap();
    let ctx = b.freeze();
    assert_eq!(ctx.active_game(), None);
    assert_eq!(ctx.activate_game("unknown").unwrap_err(), RegistryError::NotFound("unknown".into()));
    assert_eq!(ctx.active_game(), None);
    ctx.activate_game("Game-X").unwrap();
    assert_eq!(ctx.active_game(), Some("game-x".to_string()));
    assert_eq!(ctx.activate_game("unknown").unwrap_err(), RegistryError::NotFound("unknown".into()));
    assert_eq!(ctx.activate_game("??").unwrap_err(), RegistryError::InvalidId("??".into()));
    assert_eq!(ctx.active_game(), Some("game-x".to_string()));
}

#[test]
fn extended_info_resolution() {
    let mut b: ContextBuilder<DummyModProvider, DummyGameProvider> = ContextBuilder::new();
    let p = DummyModProvider::new("p");
    b.register_mod_provider("mod:p", p.clone(), ProviderSource::Core).unwrap();
    b.register_game_provider(Arc::new(DummyGameProvider::new("game-a", "mod:p")), ProviderSource::Core).unwrap();
    let ctx = b.freeze();
    assert_eq!(ctx.extended_info_target("mod-xyz").err(), Some(RegistryError::NotFound("No active game".into())));
    assert_eq!(ctx.extended_info_target("bad id").err(), Some(RegistryError::InvalidId("bad id".into())));
    ctx.activate_game("game-a").unwrap();
    let (id, provider) = ctx.extended_info_target("Mod-XYZ").unwrap();
    assert_eq!(id, "mod-xyz");
    assert!(Arc::ptr_eq(&provider, &p));
    assert_eq!(ctx.resolve_extended_info_provider(None).err(), Some(RegistryError::NotFound("No active game".into())));
    assert_eq!(ctx.resolve_extended_info_provider(Some("mod:q".into())).err(), Some(RegistryError::NotFound("mod:q".into())));
    assert!(ctx.resolve_extended_info_provider(Some("mod:p".into())).is_ok());
}

#[test]
fn end_to_end_with_trait_objects() {
    let mut b: ContextBuilder<dyn ModProvider, dyn GameProvider> = ContextBuilder::new();
    b.register_mod_provider("mod:a", DummyModProvider::new("mod:a"), ProviderSource::Plugin("plug".into())).unwrap();
    b.register_mod_provider("core:base", DummyModProvider::new("core:base"), ProviderSource::Core).unwrap();
    let ctx_providers = 2;
    let game: Arc<dyn GameProvider> = Arc::new(DummyGameProvider::new("game-x", "mod:a"));
    b.register_game_provider(game, ProviderSource::Plugin("plug".into())).unwrap();
    let ctx = b.freeze();
    assert_eq!(ctx.list_mod_providers().len(), ctx_providers);
    assert_eq!(ctx.list_games().len(), 1);
    assert!(ctx.activate_game("game-x").is_ok());
    assert_eq!(ctx.active_game_required_provider(), Some("mod:a".to_string()));
}
