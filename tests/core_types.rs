use openttd_savegame::company::{
    Company, CompanyEconomyEntry, CompanyInfrastructure, LiveryScheme, LS_END,
};
use openttd_savegame::industry::{Industry, INDUSTRYTYPE_COAL_MINE};
use openttd_savegame::map::{GameMap, Tile, TileBase, TileExtended, TileIndex, TileType, TropicZone};
use openttd_savegame::station::AirportType;
use openttd_savegame::station::{
    Station, StationRect, FACIL_AIRPORT, FACIL_BUS_STOP, FACIL_DOCK, FACIL_NONE, FACIL_TRAIN,
    FACIL_WAYPOINT,
};
use openttd_savegame::town::{Town, TownCargo, TownSize};
use openttd_savegame::types::{
    CargoType, IndustryID, Owner, StationID, TownID, VehicleID, INVALID_STRING_ID,
};
use openttd_savegame::vehicle::{
    AircraftData, AircraftSubType, Direction, RoadVehicleData, ShipData, TrackBits, TrainData,
    TrainForceProceeding, Vehicle, VehicleStates, VehicleType, VehicleTypeData,
};

#[test]
fn test_company_economy_entry_size() {
    let size = std::mem::size_of::<CompanyEconomyEntry>();
    assert!(size < 512, "CompanyEconomyEntry unexpectedly large");
}

#[test]
fn test_livery_scheme_values() {
    assert_eq!(LiveryScheme::Default.index(), 0);
    assert_eq!(LiveryScheme::Bus.index(), 10);
    assert_eq!(LiveryScheme::End.index(), 20);
    assert_eq!(LS_END, 20);
}

#[test]
fn test_company_infrastructure() {
    let mut infra = CompanyInfrastructure::default();
    infra.rail[0] = 100;
    infra.rail[1] = 50;
    assert_eq!(infra.get_rail_total(), 150);
    infra.road[0] = 200;
    infra.road[32] = 75;
    assert_eq!(infra.get_road_total(), 200);
    assert_eq!(infra.get_tram_total(), 75);
}

#[test]
fn test_company_creation() {
    let company = Company::new(0, 0x100);
    assert_eq!(company.index, 0);
    assert_eq!(company.name_1, 0x100);
    assert!(!company.is_ai);
    assert_eq!(company.as_owner(), Owner::Company0);
}

#[test]
fn test_company_ai_flags() {
    let mut company = Company::new(5, 0);
    assert!(company.is_human_company());
    assert!(!company.is_ai_company());
    company.is_ai = true;
    assert!(!company.is_human_company());
    assert!(company.is_ai_company());
}

#[test]
fn company_loan_and_recolour() {
    let mut company = Company::new(16, 0);
    assert_eq!(company.as_owner(), Owner::Invalid);
    assert_eq!(company.get_max_loan(), 500000);
    company.max_loan = 250000;
    assert_eq!(company.get_max_loan(), 250000);
    company.livery[LiveryScheme::Bus.index()].colour1 = 3;
    company.livery[LiveryScheme::Bus.index()].colour2 = 2;
    assert_eq!(company.get_company_recolour_offset(LiveryScheme::Bus, false), 3);
    assert_eq!(company.get_company_recolour_offset(LiveryScheme::Bus, true), 35);
}

#[test]
fn test_industry_size() {
    let industry_size = std::mem::size_of::<Industry>();
    assert!(industry_size >= 400);
}

#[test]
fn test_industry_creation() {
    let industry = Industry::new(IndustryID(1), TileIndex(1000), INDUSTRYTYPE_COAL_MINE);
    assert_eq!(industry.index, IndustryID(1));
    assert_eq!(industry.location, TileIndex(1000));
    assert_eq!(industry.industry_type, INDUSTRYTYPE_COAL_MINE);
}

#[test]
fn test_cargo_operations() {
    let mut industry = Industry::new(IndustryID(1), TileIndex(1000), INDUSTRYTYPE_COAL_MINE);
    industry.produced_cargo[0].cargo = CargoType(1);
    industry.accepts_cargo[0].cargo = CargoType(2);
    assert!(industry.produces(CargoType(1)));
    assert!(!industry.produces(CargoType(2)));
    assert!(industry.accepts(CargoType(2)));
    assert!(!industry.accepts(CargoType(1)));
}

#[test]
fn industry_transport_percentage() {
    let mut industry = Industry::new(IndustryID(2), TileIndex(5), INDUSTRYTYPE_COAL_MINE);
    assert_eq!(industry.get_transport_percentage(), 0);
    industry.production.produced[0] = 150;
    industry.production.produced[3] = 50;
    industry.production.transported[0] = 50;
    assert_eq!(industry.get_total_production(), 200);
    assert_eq!(industry.get_total_transported(), 50);
    assert_eq!(industry.get_transport_percentage(), 25);
    industry.production.transported[1] = 400;
    assert_eq!(industry.get_transport_percentage(), 100);
    let mut small = Industry::new(IndustryID(3), TileIndex(6), INDUSTRYTYPE_COAL_MINE);
    small.production.produced[0] = 1;
    small.production.transported[0] = 3;
    assert_eq!(small.get_transport_percentage(), 100);
}

#[test]
fn test_tile_size() {
    assert_eq!(std::mem::size_of::<TileBase>(), 8);
    assert_eq!(std::mem::size_of::<TileExtended>(), 4);
    assert_eq!(std::mem::size_of::<Tile>(), 12);
}

#[test]
fn test_tile_type_packing() {
    let mut tile = Tile::new_void();
    tile.base.set_tile_type(TileType::Railway);
    assert_eq!(tile.base.tile_type(), TileType::Railway);
    tile.base.set_bridge_above(3);
    assert_eq!(tile.base.tile_type(), TileType::Railway);
    assert_eq!(tile.base.bridge_above(), 3);
    tile.base.set_climate_zone(TropicZone::Desert);
    assert_eq!(tile.base.tile_type(), TileType::Railway);
    assert_eq!(tile.base.bridge_above(), 3);
    assert_eq!(tile.base.climate_zone(), TropicZone::Desert);
}

#[test]
fn test_map_creation() {
    let map = GameMap::new(8, 8).unwrap();
    assert_eq!(map.size_x, 256);
    assert_eq!(map.size_y, 256);
    assert_eq!(map.size, 65536);
    assert_eq!(map.tiles.len(), 65536);
    assert!(GameMap::new(5, 8).is_err());
    assert!(GameMap::new(13, 8).is_err());
}

#[test]
fn test_tile_indexing() {
    let map = GameMap::new(8, 8).unwrap();
    let index = map.tile_xy(100, 50);
    assert_eq!(map.tile_x(index), 100);
    assert_eq!(map.tile_y(index), 50);
    let invalid = map.tile_xy(300, 50);
    assert_eq!(invalid, TileIndex::invalid());
}

#[test]
fn map_tiles_by_index() {
    let mut map = GameMap::new(6, 7).unwrap();
    assert_eq!(map.size, 64 * 128);
    assert_eq!(map.tile_mask, 64 * 128 - 1);
    assert_eq!(map.get_tile(TileIndex(0)).unwrap().base.tile_type(), TileType::Void);
    assert!(map.get_tile(TileIndex(64 * 128)).is_none());
    assert!(map.get_tile(TileIndex::invalid()).is_none());
    map.get_tile_mut(TileIndex(5)).unwrap().base.set_tile_type(TileType::Water);
    assert_eq!(map.get_tile(TileIndex(5)).unwrap().base.tile_type(), TileType::Water);
    assert_eq!(map.get_tile(TileIndex(6)).unwrap().base.tile_type(), TileType::Void);
    assert_eq!(Tile::new_clear(4).base.height, 4);
    assert_eq!(Tile::new_clear(4).base.tile_type(), TileType::Clear);
}

#[test]
fn test_station_creation() {
    let station = Station::new(StationID(1), TileIndex(1000), Owner::Company0);
    assert_eq!(station.index, StationID(1));
    assert_eq!(station.xy, TileIndex(1000));
    assert_eq!(station.owner, Owner::Company0);
    assert_eq!(station.facilities, FACIL_NONE);
}

#[test]
fn test_station_facilities() {
    let mut station = Station::new(StationID(1), TileIndex(1000), Owner::Company0);
    station.facilities = FACIL_TRAIN | FACIL_BUS_STOP;
    assert!(station.has_facilities(FACIL_TRAIN));
    assert!(station.has_facilities(FACIL_BUS_STOP));
    assert!(!station.has_facilities(FACIL_AIRPORT));
    assert!(!station.is_waypoint());
    station.facilities = FACIL_WAYPOINT;
    assert!(station.is_waypoint());
}

#[test]
fn test_station_rect() {
    let rect = StationRect { left: 10, top: 20, right: 30, bottom: 40 };
    assert!(!rect.is_empty());
    assert_eq!(rect.width(), 21);
    assert_eq!(rect.height(), 21);
}

#[test]
fn station_catchment_and_cargo() {
    let mut station = Station::new(StationID(3), TileIndex(7), Owner::Company1);
    assert_eq!(station.get_catchment_radius(), 0);
    station.facilities = FACIL_BUS_STOP | FACIL_TRAIN;
    assert_eq!(station.get_catchment_radius(), 4);
    station.facilities = FACIL_DOCK | FACIL_TRAIN;
    assert_eq!(station.get_catchment_radius(), 5);
    station.facilities = FACIL_AIRPORT;
    station.airport_type = AirportType::Intercontinental;
    assert_eq!(station.get_catchment_radius(), 10);
    assert!(station.has_airport());
    assert!(!station.has_dock());
    station.goods[4].acceptance = true;
    station.goods[4].amount_waiting = 12;
    station.goods[4].rating = 200;
    assert!(station.accepts_cargo(CargoType(4)));
    assert!(!station.accepts_cargo(CargoType(0xFF)));
    assert_eq!(station.get_waiting_cargo(CargoType(4)), 12);
    assert_eq!(station.get_waiting_cargo(CargoType(64)), 0);
    assert_eq!(station.get_rating(CargoType(4)), 200);
    let empty = StationRect { left: 5, top: 0, right: 4, bottom: 0 };
    assert!(empty.is_empty());
    assert_eq!(empty.width(), 0);
}

#[test]
fn test_town_size() {
    let town_size = std::mem::size_of::<Town>();
    assert!(town_size >= 500);
}

#[test]
fn test_town_creation() {
    let town = Town::new(TownID(1), TileIndex(1000));
    assert_eq!(town.index, TownID(1));
    assert_eq!(town.xy, TileIndex(1000));
    assert_eq!(town.population, 0);
    assert!(!town.is_growing());
}

#[test]
fn test_town_ratings() {
    let mut town = Town::new(TownID(1), TileIndex(1000));
    town.ratings[0] = 500;
    assert_eq!(town.get_rating(0), 500);
    assert_eq!(town.get_rating(1), 0);
}

#[test]
fn town_size_classes_and_statues() {
    let mut town = Town::new(TownID(2), TileIndex(1));
    assert_eq!(town.get_town_size(), TownSize::Small);
    town.population = 1000;
    assert_eq!(town.get_town_size(), TownSize::Medium);
    town.population = 3000;
    assert_eq!(town.get_town_size(), TownSize::Large);
    town.have_statue = 1 << 3;
    assert!(town.has_statue(3));
    assert!(!town.has_statue(2));
    assert!(!town.has_statue(15));
    assert_eq!(town.get_rating(20), 0);
}

#[test]
fn types_test_owner_values() {
    assert_eq!(Owner::Town.as_u8(), 0x0F);
    assert_eq!(Owner::Nobody.as_u8(), 0x10);
    assert_eq!(Owner::Water.as_u8(), 0x11);
    assert_eq!(Owner::Deity.as_u8(), 0x12);
    assert_eq!(Owner::Invalid.as_u8(), 0xFF);
    assert!(Owner::Company0.is_company());
    assert!(Owner::Company14.is_company());
    assert!(!Owner::Town.is_company());
    assert!(!Owner::Nobody.is_company());
}

#[test]
fn test_id_types() {
    assert!(!StationID::invalid().is_valid());
    assert!(!TownID::invalid().is_valid());
    assert!(!IndustryID::invalid().is_valid());
    assert!(!VehicleID::invalid().is_valid());
    assert!(StationID(100).is_valid());
    assert!(TownID(500).is_valid());
    assert!(IndustryID(1000).is_valid());
    assert!(VehicleID(5000).is_valid());
}

#[test]
fn owner_company_ids() {
    assert_eq!(Owner::Company7.company_id(), Some(7));
    assert_eq!(Owner::Water.company_id(), None);
    assert_eq!(Owner::from_company_id(14), Owner::Company14);
    assert_eq!(Owner::default(), Owner::Nobody);
    assert_eq!(CargoType(9).as_usize(), 9);
    assert!(!CargoType::invalid().is_valid());
}

#[test]
fn test_vehicle_size() {
    let size = std::mem::size_of::<Vehicle>();
    assert!(size < 1024, "Vehicle struct unexpectedly large");
}

#[test]
fn vehicle_test_vehicle_type_values() {
    assert_eq!(VehicleType::Train.as_u8(), 0);
    assert_eq!(VehicleType::Road.as_u8(), 1);
    assert_eq!(VehicleType::Ship.as_u8(), 2);
    assert_eq!(VehicleType::Aircraft.as_u8(), 3);
    assert_eq!(VehicleType::Invalid.as_u8(), 0xFF);
}

#[test]
fn test_direction_values() {
    assert_eq!(Direction::N.as_u8(), 0);
    assert_eq!(Direction::E.as_u8(), 2);
    assert_eq!(Direction::S.as_u8(), 4);
    assert_eq!(Direction::W.as_u8(), 6);
    assert_eq!(Direction::Invalid.as_u8(), 0xFF);
}

#[test]
fn test_vehicle_states() {
    let mut states = VehicleStates::empty();
    assert!(!states.contains(VehicleStates::crashed()));
    states.insert(VehicleStates::crashed());
    assert!(states.contains(VehicleStates::crashed()));
    states.insert(VehicleStates::stopped());
    assert!(states.contains(VehicleStates::stopped()));
}

#[test]
fn test_vehicle_creation() {
    let vehicle = Vehicle::new(VehicleID(42), VehicleType::Train);
    assert_eq!(vehicle.index, VehicleID(42));
    assert_eq!(vehicle.type_, VehicleType::Train);
    assert_eq!(vehicle.tile, TileIndex::invalid());
    assert!(!vehicle.is_crashed());
    assert!(!vehicle.is_stopped());
    match vehicle.type_data {
        VehicleTypeData::Train(_) => {}
        _ => panic!("Expected Train type data"),
    }
}

#[test]
fn test_train_data() {
    let train_data = TrainData::default();
    assert_eq!(train_data.crash_anim_pos, 0);
    assert!(train_data.flags.is_empty());
    assert_eq!(train_data.track, TrackBits::NoTrack);
    assert_eq!(train_data.force_proceed, TrainForceProceeding::NoForce);
}

#[test]
fn test_road_vehicle_data() {
    let road_data = RoadVehicleData::default();
    assert_eq!(road_data.state, 0);
    assert_eq!(road_data.overtaking, 0);
    assert_eq!(road_data.roadtype, 0xFF);
    assert!(road_data.path.is_empty());
}

#[test]
fn test_ship_data() {
    let ship_data = ShipData::default();
    assert_eq!(ship_data.state, TrackBits::NoTrack);
    assert_eq!(ship_data.rotation, Direction::Invalid);
    assert!(ship_data.path.is_empty());
}

#[test]
fn test_aircraft_data() {
    let aircraft_data = AircraftData::default();
    assert_eq!(aircraft_data.crashed_counter, 0);
    assert_eq!(aircraft_data.targetairport, StationID::invalid());
    assert!(aircraft_data.flags.is_empty());
    assert_eq!(aircraft_data.last_direction, Direction::Invalid);
}

#[test]
fn test_vehicle_type_data_creation() {
    match VehicleTypeData::new(VehicleType::Train) {
        VehicleTypeData::Train(_) => {}
        _ => panic!("Expected Train type data"),
    }
    match VehicleTypeData::new(VehicleType::Road) {
        VehicleTypeData::RoadVehicle(_) => {}
        _ => panic!("Expected RoadVehicle type data"),
    }
    match VehicleTypeData::new(VehicleType::Ship) {
        VehicleTypeData::Ship(_) => {}
        _ => panic!("Expected Ship type data"),
    }
    match VehicleTypeData::new(VehicleType::Aircraft) {
        VehicleTypeData::Aircraft(_) => {}
        _ => panic!("Expected Aircraft type data"),
    }
    match VehicleTypeData::new(VehicleType::Invalid) {
        VehicleTypeData::NoData => {}
        _ => panic!("Expected None type data"),
    }
}

#[test]
fn vehicle_flags_front_and_stopped() {
    let mut v = Vehicle::new(VehicleID(1), VehicleType::Road);
    assert!(v.is_front());
    v.subtype = 2;
    assert!(!v.is_front());
    v.vehstatus.insert(VehicleStates::stopped());
    assert!(v.is_stopped());
    v.vehstatus.remove(VehicleStates::stopped());
    assert!(!v.is_stopped());
    assert_eq!(v.vehstatus.bits(), 0);
}

#[test]
fn test_struct_alignment() {
    assert_eq!(std::mem::align_of::<Tile>(), 2);
    assert_eq!(std::mem::align_of::<TileBase>(), 2);
    assert_eq!(std::mem::align_of::<TileExtended>(), 2);
}

#[test]
fn test_tile_sizes() {
    assert_eq!(std::mem::size_of::<Tile>(), 12, "Tile size mismatch");
    assert_eq!(std::mem::size_of::<TileBase>(), 8, "TileBase size mismatch");
    assert_eq!(std::mem::size_of::<TileExtended>(), 4, "TileExtended size mismatch");
}

#[test]
fn test_id_sizes() {
    assert_eq!(std::mem::size_of::<StationID>(), 2);
    assert_eq!(std::mem::size_of::<TownID>(), 2);
    assert_eq!(std::mem::size_of::<IndustryID>(), 2);
    assert_eq!(std::mem::size_of::<VehicleID>(), 4);
    assert_eq!(std::mem::size_of::<TileIndex>(), 4);
}

#[test]
fn compatibility_test_owner_values() {
    assert_eq!(Owner::Company0.as_u8(), 0x00);
    assert_eq!(Owner::Company14.as_u8(), 0x0E);
    assert_eq!(Owner::Town.as_u8(), 0x0F);
    assert_eq!(Owner::Nobody.as_u8(), 0x10);
    assert_eq!(Owner::Water.as_u8(), 0x11);
    assert_eq!(Owner::Deity.as_u8(), 0x12);
}

#[test]
fn test_invalid_ids() {
    assert_eq!(StationID::invalid().0, 0xFFFF);
    assert_eq!(TownID::invalid().0, 0xFFFF);
    assert_eq!(IndustryID::invalid().0, 0xFFFF);
    assert_eq!(VehicleID::invalid().0, 0xFFFFF);
    assert_eq!(TileIndex::invalid().0, 0xFFFFFFFF);
}

#[test]
fn test_vehicle_structure() {
    let vehicle = Vehicle::new(VehicleID(1), VehicleType::Train);
    assert_eq!(vehicle.index, VehicleID(1));
    assert_eq!(vehicle.type_, VehicleType::Train);
    assert_eq!(vehicle.owner, Owner::Invalid);
}

#[test]
fn test_company_structure() {
    let company = Company::new(0, INVALID_STRING_ID);
    assert_eq!(company.index, 0);
    assert_eq!(company.money, 100000);
}

#[test]
fn test_town_structure() {
    let town = Town::new(TownID(1), TileIndex(5000));
    assert_eq!(town.index, TownID(1));
    assert_eq!(town.xy, TileIndex(5000));
    assert!(!town.is_growing());
}

#[test]
fn test_industry_structure() {
    let industry = Industry::new(IndustryID(1), TileIndex(3000), INDUSTRYTYPE_COAL_MINE);
    assert_eq!(industry.index, IndustryID(1));
    assert_eq!(industry.location, TileIndex(3000));
    assert_eq!(industry.industry_type, INDUSTRYTYPE_COAL_MINE);
}

#[test]
fn test_station_structure() {
    let station = Station::new(StationID(1), TileIndex(2000), Owner::Company0);
    assert_eq!(station.index, StationID(1));
    assert_eq!(station.xy, TileIndex(2000));
    assert_eq!(station.owner, Owner::Company0);
    assert_eq!(station.facilities, FACIL_NONE);
}

#[test]
fn test_map_coordinates() {
    let map = GameMap::new(8, 8).expect("Failed to create map");
    let index = TileIndex(1000);
    let x = map.tile_x(index);
    let y = map.tile_y(index);
    let reconstructed = map.tile_xy(x, y);
    assert_eq!(index, reconstructed);
}

#[test]
fn test_tile_bitfields() {
    let mut base = TileBase { type_height: 0, height: 0, m2: 0, m1: 0, m3: 0, m4: 0, m5: 0 };
    base.type_height = TileType::Industry.code() << 4;
    assert_eq!(base.type_height >> 4, TileType::Industry.code());
    base.height = 15;
    assert_eq!(base.height, 15);
    base.m1 = Owner::Company5.as_u8();
    assert_eq!(base.m1, Owner::Company5.as_u8());
}

#[test]
fn test_enum_representations() {
    assert_eq!(std::mem::size_of::<VehicleType>(), 1);
    assert_eq!(std::mem::size_of::<Direction>(), 1);
    assert_eq!(std::mem::size_of::<TileType>(), 1);
    assert_eq!(std::mem::size_of::<Owner>(), 1);
}

#[test]
fn test_cargo_arrays() {
    let cargo_entry = CompanyEconomyEntry::default();
    assert_eq!(cargo_entry.delivered_cargo.len(), 64);
    let town_cargo = TownCargo::default();
    assert_eq!(town_cargo.produced.len(), 64);
    assert_eq!(town_cargo.accepted.len(), 64);
    assert_eq!(town_cargo.received.len(), 64);
}

#[test]
fn test_vehicle_type_data() {
    let train_data = TrainData::default();
    assert_eq!(train_data.crash_anim_pos, 0);
    assert!(train_data.flags.is_empty());
    let road_data = RoadVehicleData::default();
    assert_eq!(road_data.state, 0);
    assert_eq!(road_data.roadtype, 0xFF);
    let ship_data = ShipData::default();
    assert_eq!(ship_data.state, TrackBits::NoTrack);
    let aircraft_data = AircraftData::default();
    assert_eq!(aircraft_data.targetairport, StationID::invalid());
}

#[test]
fn compatibility_test_vehicle_type_values() {
    assert_eq!(VehicleType::Train.as_u8(), 0);
    assert_eq!(VehicleType::Road.as_u8(), 1);
    assert_eq!(VehicleType::Ship.as_u8(), 2);
    assert_eq!(VehicleType::Aircraft.as_u8(), 3);
    assert_eq!(VehicleType::Effect.as_u8(), 4);
    assert_eq!(VehicleType::Disaster.as_u8(), 5);
    assert_eq!(VehicleType::Invalid.as_u8(), 0xFF);
}

#[test]
fn test_aircraft_subtype_values() {
    assert_eq!(AircraftSubType::Helicopter.as_u8(), 0);
    assert_eq!(AircraftSubType::Aircraft.as_u8(), 2);
    assert_eq!(AircraftSubType::Shadow.as_u8(), 4);
    assert_eq!(AircraftSubType::Rotor.as_u8(), 6);
}

#[test]
fn test_train_force_proceeding_values() {
    assert_eq!(TrainForceProceeding::NoForce.as_u8(), 0);
    assert_eq!(TrainForceProceeding::Stuck.as_u8(), 1);
    assert_eq!(TrainForceProceeding::Signal.as_u8(), 2);
}
