//! The root that a host drives: tracks, named curves, the scheduler, and
//! the channels of the host.
use crate::animation::coroutine_manager::CoroutineManager;
use crate::animation::tracks_holder::TracksHolder;
use crate::base_provider_context::BaseProviderContext;
use crate::ffi::types::WrapBaseValueType;
use crate::point_definition::base_point_definition::BasePointDefinition;
use crate::point_definition::point_definition_interpolation::share;
use ahash::AHashMap;
use std::rc::Rc;
use vstd::prelude::*;

verus! {

/// What a map of curves by name and kind holds: the curve under each name
/// and kind.
pub uninterp spec fn curve_entries(
    m: AHashMap<(String, WrapBaseValueType), Rc<BasePointDefinition>>,
) -> Map<(Seq<char>, WrapBaseValueType), Rc<BasePointDefinition>>;

/// `AHashMap::new`: a map that holds nothing.
#[verifier::external_body]
fn curve_map_new() -> (r: AHashMap<(String, WrapBaseValueType), Rc<BasePointDefinition>>)
    ensures
        curve_entries(r) == (Map::<
            (Seq<char>, WrapBaseValueType),
            Rc<BasePointDefinition>,
        >::empty()),
{
    AHashMap::new()
}

/// `AHashMap::get`: the handle to the curve under the name `name` and the
/// kind `typ`, where the map holds one.
#[verifier::external_body]
fn curve_map_get<'a>(
    m: &'a AHashMap<(String, WrapBaseValueType), Rc<BasePointDefinition>>,
    name: &str,
    typ: WrapBaseValueType,
) -> (r: Option<&'a Rc<BasePointDefinition>>)
    ensures
        r == (if curve_entries(*m).contains_key((name@, typ)) {
            Some(&curve_entries(*m)[(name@, typ)])
        } else {
            None
        }),
{
    m.get(&(name.to_string(), typ))
}

/// `AHashMap::insert`: puts `curve` under the name `id` and the kind
/// `typ`.
#[verifier::external_body]
fn curve_map_insert(
    m: &mut AHashMap<(String, WrapBaseValueType), Rc<BasePointDefinition>>,
    id: String,
    typ: WrapBaseValueType,
    curve: Rc<BasePointDefinition>,
)
    ensures
        curve_entries(*final(m)) == curve_entries(*old(m)).insert((id@, typ), curve),
{
    m.insert((id, typ), curve);
}

/// Context that holds tracks, point definitions, and coroutine manager.
pub struct TracksContext {
    pub tracks: TracksHolder,
    pub point_definitions: AHashMap<(String, WrapBaseValueType), Rc<BasePointDefinition>>,
    pub coroutine_manager: CoroutineManager,
    pub base_providers: BaseProviderContext,
}

impl TracksContext {
    /// The curves of the context, by name and kind.
    pub open spec fn definitions(&self) -> Map<
        (Seq<char>, WrapBaseValueType),
        Rc<BasePointDefinition>,
    > {
        curve_entries(self.point_definitions)
    }

    /// Whether the context holds a curve under the name `name` and the
    /// kind `typ`.
    pub fn has_point_definition(&self, name: &str, typ: WrapBaseValueType) -> (r: bool)
        ensures
            r == self.definitions().contains_key((name@, typ)),
    {
        curve_map_get(&self.point_definitions, name, typ).is_some()
    }

    /// Puts `point_definition` under the name `id` and its own kind. A
    /// second curve of one name and kind is a usage error.
    pub fn add_point_definition(&mut self, id: String, point_definition: Rc<BasePointDefinition>)
        requires
            !old(self).definitions().contains_key((id@, point_definition.kind())),
        ensures
            final(self).definitions() == old(self).definitions().insert(
                (id@, point_definition.kind()),
                point_definition,
            ),
            final(self).tracks == old(self).tracks,
            final(self).coroutine_manager == old(self).coroutine_manager,
            final(self).base_providers == old(self).base_providers,
    {
        let ty = point_definition.get_type();
        curve_map_insert(&mut self.point_definitions, id, ty, point_definition);
    }

    /// A handle to the curve under the name `name` and the kind `typ`,
    /// where the context holds one.
    pub fn get_point_definition(&self, name: &str, typ: WrapBaseValueType) -> (r: Option<
        Rc<BasePointDefinition>,
    >)
        ensures
            r == (if self.definitions().contains_key((name@, typ)) {
                Some(self.definitions()[(name@, typ)])
            } else {
                None
            }),
    {
        match curve_map_get(&self.point_definitions, name, typ) {
            Some(curve) => Some(share(curve)),
            None => None,
        }
    }

    /// The channels of the host.
    pub fn get_base_provider_context(&self) -> (r: &BaseProviderContext)
        ensures
            *r == self.base_providers,
    {
        &self.base_providers
    }

    /// The channels of the host, to be written.
    pub fn get_mut_base_provider_context(&mut self) -> (r: &mut BaseProviderContext)
        ensures
            *r == old(self).base_providers,
            *final(self) == (TracksContext { base_providers: *final(r), ..*old(self) }),
    {
        &mut self.base_providers
    }
}

impl Default for TracksContext {
    fn default() -> (r: TracksContext)
        ensures
            r.definitions() == Map::<(Seq<char>, WrapBaseValueType), Rc<BasePointDefinition>>::empty(),
            r.tracks@ == Map::<u64, crate::animation::track::Track>::empty(),
            r.coroutine_manager.coroutines@.len() == 0,
            r.coroutine_manager.wf(),
            r.base_providers.wf(),
    {
        TracksContext {
            tracks: TracksHolder::default(),
            point_definitions: curve_map_new(),
            coroutine_manager: CoroutineManager::default(),
            base_providers: BaseProviderContext::new(),
        }
    }
}

} // verus!
