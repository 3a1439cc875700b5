//! The engine facade.
//!
//! It wires the LiDAR processor and the proximity resolver over three
//! indexes (environment, users, tags), gates every scan and discovery call
//! on battery health and on the lifecycle state, and exposes the
//! operations the transport serves.  Clock readings are injected by the
//! caller as plain millisecond values.

use vstd::prelude::*;

use crate::lidar::{EnvironmentMap, LiDARError, LiDARProcessor, ScanPoint};
use crate::location::Location;
use crate::proximity::{discover_contract, DiscoveryResult, ProximityError, ProximityService};
use crate::spatial_index::{IndexFrame, SpatialIndex};

verus! {

/// Battery percentage below which scans and discoveries are refused.
pub const MIN_BATTERY_LEVEL_PERCENT: u8 = 15;

/// Advisory processing deadline, in milliseconds.
pub const MAX_PROCESSING_TIME_MS: u64 = 100;

/// Default grace period of a shutdown, in milliseconds.
pub const GRACEFUL_SHUTDOWN_TIMEOUT_MS: u64 = 5000;

/// Failures of engine operations.
#[derive(Clone, Copy, Debug, PartialEq, Eq, Structural)]
pub enum EngineError {
    /// The battery is below [`MIN_BATTERY_LEVEL_PERCENT`].
    BatteryCritical { level_percent: u8 },
    /// The engine is draining or terminated.
    ShuttingDown,
    /// The processor refused the operation.
    Lidar(LiDARError),
    /// The resolver refused the operation.
    Proximity(ProximityError),
}

/// The lifecycle of the facade.
#[derive(Clone, Copy, Debug, PartialEq, Eq, Structural)]
pub enum EngineState {
    Initializing,
    Ready,
    Draining,
    Terminated,
}

/// Health telemetry consulted before heavy work.
#[derive(Clone, Copy, Debug, PartialEq, Eq, Structural)]
pub struct HealthMonitor {
    pub battery_percent: u8,
    pub last_check_at_ms: u64,
    pub last_processing_ms: u64,
}

/// Engine-level configuration.
#[derive(Clone, Debug)]
pub struct Settings {
    pub scan_range_mm: u64,
    pub confidence_threshold_ppk: u32,
    pub refresh_rate_hz: u32,
    pub batch_size: usize,
    pub graceful_shutdown_timeout_ms: u64,
}

impl Default for Settings {
    /// The default engine configuration.
    fn default() -> (s: Settings)
        ensures
            s.scan_range_mm == 50_000,
            s.confidence_threshold_ppk == 950,
            s.refresh_rate_hz == 30,
            s.batch_size == crate::lidar::BATCH_SIZE,
            s.graceful_shutdown_timeout_ms == GRACEFUL_SHUTDOWN_TIMEOUT_MS,
    {
        Settings {
            scan_range_mm: 50_000,
            confidence_threshold_ppk: 950,
            refresh_rate_hz: 30,
            batch_size: crate::lidar::BATCH_SIZE,
            graceful_shutdown_timeout_ms: GRACEFUL_SHUTDOWN_TIMEOUT_MS,
        }
    }
}

/// The engine facade.
pub struct SpatialEngine {
    processor: LiDARProcessor,
    proximity: ProximityService,
    settings: Settings,
    health: HealthMonitor,
    state: EngineState,
}

impl SpatialEngine {
    /// The LiDAR processor.
    pub closed spec fn processor_spec(self) -> LiDARProcessor {
        self.processor
    }

    /// The proximity resolver.
    pub closed spec fn proximity_spec(self) -> ProximityService {
        self.proximity
    }

    /// The lifecycle state.
    pub closed spec fn state_spec(self) -> EngineState {
        self.state
    }

    /// The battery level, in percent.
    pub closed spec fn battery_spec(self) -> u8 {
        self.health.battery_percent
    }

    /// Well-formedness of both components.
    pub open spec fn inv(self) -> bool {
        &&& self.processor_spec().inv()
        &&& self.proximity_spec().inv()
    }

    /// Whether scans and discoveries go through: the engine is ready and
    /// the battery level suffices.
    pub open spec fn spec_operational(self) -> bool {
        self.state_spec() == EngineState::Ready && self.battery_spec()
            >= MIN_BATTERY_LEVEL_PERCENT
    }

    /// Builds an engine from a configuration: a device-local environment
    /// index behind the processor, and geodetic user and tag indexes
    /// behind the resolver.  The battery starts at 100 %.
    pub fn new(config: Settings) -> (result: Result<SpatialEngine, EngineError>)
        ensures
            match result {
                Ok(e) => {
                    &&& e.inv()
                    &&& e.state_spec() == EngineState::Ready
                    &&& e.battery_spec() == 100
                    &&& e.processor_spec().scan_range_spec() == config.scan_range_mm
                    &&& e.processor_spec().conf_spec() == config.confidence_threshold_ppk
                    &&& e.processor_spec().next_id_spec() == 0
                    &&& e.processor_spec().env().entries_view() == Seq::<
                        (Location, Seq<char>, u32),
                    >::empty()
                    &&& e.proximity_spec().users().entries_view() == Seq::<
                        (Location, Seq<char>, u32),
                    >::empty()
                    &&& e.proximity_spec().tags().entries_view() == Seq::<
                        (Location, Seq<char>, u32),
                    >::empty()
                },
                Err(EngineError::Lidar(_)) => !(500 <= config.scan_range_mm <= 50_000) || !(850
                    <= config.confidence_threshold_ppk <= 1000),
                Err(_) => false,
            },
    {
        let environment_index = SpatialIndex::new(None, IndexFrame::DeviceLocal);
        let processor = match LiDARProcessor::new(
            environment_index,
            Some(config.scan_range_mm),
            Some(config.confidence_threshold_ppk),
            None,
        ) {
            Ok(p) => p,
            Err(e) => {
                return Err(EngineError::Lidar(e));
            },
        };
        let user_index = SpatialIndex::new(None, IndexFrame::Geodetic);
        let tag_index = SpatialIndex::new(None, IndexFrame::Geodetic);
        let proximity = ProximityService::new(user_index, tag_index);
        Ok(
            SpatialEngine {
                processor,
                proximity,
                settings: config,
                health: HealthMonitor {
                    battery_percent: 100,
                    last_check_at_ms: 0,
                    last_processing_ms: 0,
                },
                state: EngineState::Ready,
            },
        )
    }

    /// The configuration the engine was built with.
    pub fn settings(&self) -> &Settings {
        &self.settings
    }

    /// The next synthetic identifier number of the processor, for callers
    /// that must bound a frame before handing it over.
    pub fn next_point_id(&self) -> (n: u64)
        ensures
            n == self.processor_spec().next_id_spec(),
    {
        self.processor.next_id()
    }

    /// Sets the battery telemetry.
    pub fn set_battery_level(&mut self, level_percent: u8)
        requires
            old(self).inv(),
        ensures
            final(self).inv(),
            final(self).battery_spec() == level_percent,
            final(self).state_spec() == old(self).state_spec(),
            final(self).processor_spec() == old(self).processor_spec(),
            final(self).proximity_spec() == old(self).proximity_spec(),
    {
        self.health.battery_percent = level_percent;
    }

    /// Health check: reachable in every state and at every battery level.
    /// It records the reading time and fails only below the battery gate.
    pub fn check_health(&mut self, now_ms: u64) -> (result: Result<(), EngineError>)
        requires
            old(self).inv(),
        ensures
            final(self).inv(),
            final(self).state_spec() == old(self).state_spec(),
            final(self).battery_spec() == old(self).battery_spec(),
            final(self).processor_spec() == old(self).processor_spec(),
            final(self).proximity_spec() == old(self).proximity_spec(),
            match result {
                Ok(()) => old(self).battery_spec() >= MIN_BATTERY_LEVEL_PERCENT,
                Err(EngineError::BatteryCritical { level_percent }) => level_percent == old(self).battery_spec() && old(self).battery_spec() < MIN_BATTERY_LEVEL_PERCENT,
                Err(_) => false,
            },
    {
        let level = self.health.battery_percent;
        if level < MIN_BATTERY_LEVEL_PERCENT {
            return Err(EngineError::BatteryCritical { level_percent: level });
        }
        self.health.last_check_at_ms = now_ms;
        Ok(())
    }

    /// Whether the engine reports itself healthy.  Always reachable.
    pub fn is_healthy(&self) -> (r: bool)
        ensures
            r == (self.battery_spec() >= MIN_BATTERY_LEVEL_PERCENT && self.state_spec()
                == EngineState::Ready),
    {
        self.health.battery_percent >= MIN_BATTERY_LEVEL_PERCENT && matches!(
            self.state,
            EngineState::Ready,
        )
    }

    /// Processes a scan frame, gated on lifecycle state and battery.  A
    /// refused call touches no downstream component.
    pub fn process_scan(&mut self, points: Vec<ScanPoint>) -> (result: Result<
        EnvironmentMap,
        EngineError,
    >)
        requires
            old(self).inv(),
            old(self).processor_spec().next_id_spec() + points@.len() <= u64::MAX,
        ensures
            final(self).inv(),
            final(self).state_spec() == old(self).state_spec(),
            final(self).battery_spec() == old(self).battery_spec(),
            final(self).proximity_spec() == old(self).proximity_spec(),
            old(self).state_spec() != EngineState::Ready ==> result
                == Result::<EnvironmentMap, EngineError>::Err(EngineError::ShuttingDown) && *final(self) == *old(self),
            (old(self).state_spec() == EngineState::Ready && old(self).battery_spec()
                < MIN_BATTERY_LEVEL_PERCENT) ==> result == Result::<
                EnvironmentMap,
                EngineError,
            >::Err(EngineError::BatteryCritical { level_percent: old(self).battery_spec() })
                && *final(self) == *old(self),
            old(self).spec_operational() ==> match result {
                Ok(m) => {
                    let acc = crate::lidar::spec_retained(
                        old(self).processor_spec().transform_spec(),
                        old(self).processor_spec().scan_range_spec() as int,
                        points@,
                    );
                    let old_n = old(self).processor_spec().env().entries_view().len();
                    &&& points@.len() <= crate::lidar::MAX_POINTS_PER_SCAN
                    &&& m.points@ == acc
                    &&& final(self).processor_spec().env().entries_view().len() == old_n
                        + acc.len()
                    &&& forall|i: int|
                        0 <= i < old_n ==> final(self).processor_spec().env().entries_view()[i]
                            == old(self).processor_spec().env().entries_view()[i]
                    &&& forall|k: int|
                        #![trigger acc[k]]
                        0 <= k < acc.len() ==> {
                            let e = final(self).processor_spec().env().entries_view()[old_n + k];
                            &&& e.0.lat() == crate::lidar::spec_udeg_of_mm(acc[k].y_mm as int)
                            &&& e.0.lon() == crate::lidar::spec_udeg_of_mm(acc[k].x_mm as int)
                            &&& e.0.alt() == acc[k].z_mm as int
                            &&& e.1 == crate::lidar::spec_point_id(
                                old(self).processor_spec().next_id_spec() + k,
                            )
                        }
                },
                Err(EngineError::Lidar(LiDARError::ExcessivePointCloud { size })) => size
                    == points@.len() && points@.len() > crate::lidar::MAX_POINTS_PER_SCAN
                    && *final(self) == *old(self),
                Err(_) => false,
            },
    {
        if !matches!(self.state, EngineState::Ready) {
            return Err(EngineError::ShuttingDown);
        }
        let level = self.health.battery_percent;
        if level < MIN_BATTERY_LEVEL_PERCENT {
            return Err(EngineError::BatteryCritical { level_percent: level });
        }
        match self.processor.process_point_cloud(points) {
            Ok(m) => Ok(m),
            Err(e) => Err(EngineError::Lidar(e)),
        }
    }

    /// Discovers users near a location, gated on lifecycle state and
    /// battery.
    pub fn discover_nearby_users(&self, location: Location, radius_mm: Option<u64>) -> (result:
        Result<DiscoveryResult, EngineError>)
        requires
            self.inv(),
        ensures
            self.state_spec() != EngineState::Ready ==> result == Result::<
                DiscoveryResult,
                EngineError,
            >::Err(EngineError::ShuttingDown),
            (self.state_spec() == EngineState::Ready && self.battery_spec()
                < MIN_BATTERY_LEVEL_PERCENT) ==> result == Result::<
                DiscoveryResult,
                EngineError,
            >::Err(EngineError::BatteryCritical { level_percent: self.battery_spec() }),
            self.spec_operational() ==> match result {
                Ok(res) => discover_contract(
                    self.proximity_spec().users(),
                    self.processor_spec().env(),
                    location,
                    match radius_mm {
                        Some(r) => r,
                        None => crate::proximity::DEFAULT_DISCOVERY_RADIUS_MM,
                    },
                    Ok(res),
                ),
                Err(EngineError::Proximity(e)) => discover_contract(
                    self.proximity_spec().users(),
                    self.processor_spec().env(),
                    location,
                    match radius_mm {
                        Some(r) => r,
                        None => crate::proximity::DEFAULT_DISCOVERY_RADIUS_MM,
                    },
                    Err(e),
                ),
                Err(_) => false,
            },
    {
        if !matches!(self.state, EngineState::Ready) {
            return Err(EngineError::ShuttingDown);
        }
        let level = self.health.battery_percent;
        if level < MIN_BATTERY_LEVEL_PERCENT {
            return Err(EngineError::BatteryCritical { level_percent: level });
        }
        match self.proximity.discover_nearby_users(&self.processor, location, radius_mm) {
            Ok(res) => Ok(res),
            Err(e) => Err(EngineError::Proximity(e)),
        }
    }

    /// Registers a user at a location; gated like every non-health call.
    pub fn register_user(&mut self, location: Location, id: String) -> (result: Result<
        (),
        EngineError,
    >)
        requires
            old(self).inv(),
        ensures
            final(self).inv(),
            final(self).state_spec() == old(self).state_spec(),
            final(self).battery_spec() == old(self).battery_spec(),
            final(self).processor_spec() == old(self).processor_spec(),
            old(self).state_spec() != EngineState::Ready ==> result == Result::<
                (),
                EngineError,
            >::Err(EngineError::ShuttingDown) && *final(self) == *old(self),
            (old(self).state_spec() == EngineState::Ready && old(self).battery_spec()
                < MIN_BATTERY_LEVEL_PERCENT) ==> result == Result::<(), EngineError>::Err(
                EngineError::BatteryCritical { level_percent: old(self).battery_spec() },
            ) && *final(self) == *old(self),
            old(self).spec_operational() ==> result is Ok && final(self).proximity_spec().users().entries_view() == old(self).proximity_spec().users().entries_view().push((location, id@, 1000u32)),
    {
        if !matches!(self.state, EngineState::Ready) {
            return Err(EngineError::ShuttingDown);
        }
        let level = self.health.battery_percent;
        if level < MIN_BATTERY_LEVEL_PERCENT {
            return Err(EngineError::BatteryCritical { level_percent: level });
        }
        match self.proximity.register_user(location, id) {
            Ok(()) => Ok(()),
            Err(_) => {
                proof {
                    assert(false);
                }
                vstd::pervasive::unreached()
            },
        }
    }

    /// Begins a graceful shutdown: a ready engine starts draining; new
    /// scans and discoveries then fail, while health stays reachable.
    pub fn shutdown(&mut self) -> (result: Result<(), EngineError>)
        requires
            old(self).inv(),
        ensures
            final(self).inv(),
            final(self).battery_spec() == old(self).battery_spec(),
            final(self).processor_spec() == old(self).processor_spec(),
            final(self).proximity_spec() == old(self).proximity_spec(),
            result is Ok,
            old(self).state_spec() == EngineState::Ready ==> final(self).state_spec()
                == EngineState::Draining,
            old(self).state_spec() != EngineState::Ready ==> final(self).state_spec() == old(self).state_spec(),
    {
        if matches!(self.state, EngineState::Ready) {
            self.state = EngineState::Draining;
        }
        Ok(())
    }

    /// Completes a shutdown after the grace period: a draining engine
    /// terminates.
    pub fn finalize_shutdown(&mut self)
        requires
            old(self).inv(),
        ensures
            final(self).inv(),
            final(self).battery_spec() == old(self).battery_spec(),
            final(self).processor_spec() == old(self).processor_spec(),
            final(self).proximity_spec() == old(self).proximity_spec(),
            old(self).state_spec() == EngineState::Draining ==> final(self).state_spec()
                == EngineState::Terminated,
            old(self).state_spec() != EngineState::Draining ==> final(self).state_spec() == old(self).state_spec(),
    {
        if matches!(self.state, EngineState::Draining) {
            self.state = EngineState::Terminated;
        }
    }
}

} // verus!
