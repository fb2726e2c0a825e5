use termux_world::control::{
    process_world_commands,
    ControlAction, ResourceKind, WorldCommand, WorldControl, DEFAULT_NETWORK_KBPS_BITS,
    DEFAULT_RAM_MB_BITS, DEFAULT_STORAGE_MB_BITS, ONE_BITS,
};

#[test]
fn default_control_is_powered_and_open() {
    let c = WorldControl::default();
    assert!(c.environment_powered());
    assert!(c.input_enabled());
    assert!(c.display_enabled());
    assert!(c.allows_input());
    assert!(c.allows_display());
    assert_eq!(f32::from_bits(c.time_scale_bits()), 1.0);
    assert_eq!(f32::from_bits(c.cpu_budget_bits()), 1.0);
    assert_eq!(f32::from_bits(c.ram_budget_mb_bits()), 4096.0);
    assert_eq!(f32::from_bits(c.storage_budget_mb_bits()), 64_000.0);
    assert_eq!(f32::from_bits(c.network_budget_kbps_bits()), 100_000.0);
    assert_eq!(ONE_BITS, 1.0f32.to_bits());
    assert_eq!(DEFAULT_RAM_MB_BITS, 4096.0f32.to_bits());
    assert_eq!(DEFAULT_STORAGE_MB_BITS, 64_000.0f32.to_bits());
    assert_eq!(DEFAULT_NETWORK_KBPS_BITS, 100_000.0f32.to_bits());
    assert!(c.virtual_devices().is_empty());
}

#[test]
fn gates_need_power() {
    let mut c = WorldControl::default();
    c.enqueue(WorldCommand::SetEnvironmentPowered(false));
    let acts = process_world_commands(&mut c);
    assert_eq!(acts, vec![ControlAction::Applied]);
    assert!(!c.allows_input());
    assert!(!c.allows_display());
    assert!(c.input_enabled());
    assert!(c.display_enabled());
}

#[test]
fn input_and_display_flags() {
    let mut c = WorldControl::default();
    c.enqueue(WorldCommand::SetInputEnabled(false));
    process_world_commands(&mut c);
    assert!(!c.allows_input());
    assert!(c.allows_display());
    c.enqueue(WorldCommand::SetInputEnabled(true));
    c.enqueue(WorldCommand::SetDisplayEnabled(false));
    process_world_commands(&mut c);
    assert!(c.allows_input());
    assert!(!c.allows_display());
}

#[test]
fn launch_is_denied_while_unpowered() {
    let mut c = WorldControl::default();
    c.enqueue(WorldCommand::LaunchTermux);
    c.enqueue(WorldCommand::SetEnvironmentPowered(false));
    c.enqueue(WorldCommand::LaunchTermux);
    c.enqueue(WorldCommand::SetEnvironmentPowered(true));
    c.enqueue(WorldCommand::LaunchTermux);
    let acts = process_world_commands(&mut c);
    assert_eq!(
        acts,
        vec![
            ControlAction::LaunchTermux,
            ControlAction::Applied,
            ControlAction::LaunchDenied,
            ControlAction::Applied,
            ControlAction::LaunchTermux,
        ]
    );
    // the queue is empty afterwards
    assert!(process_world_commands(&mut c).is_empty());
}

#[test]
fn budgets_and_time_scale() {
    let mut c = WorldControl::default();
    c.enqueue(WorldCommand::SetTimeScale(2.5f32.to_bits()));
    c.enqueue(WorldCommand::SetResourceBudget { kind: ResourceKind::Cpu, limit: 0.5f32.to_bits() });
    c.enqueue(WorldCommand::SetResourceBudget { kind: ResourceKind::Ram, limit: 512.0f32.to_bits() });
    c.enqueue(WorldCommand::SetResourceBudget { kind: ResourceKind::Storage, limit: 10.0f32.to_bits() });
    c.enqueue(WorldCommand::SetResourceBudget { kind: ResourceKind::Network, limit: 7.0f32.to_bits() });
    let acts = process_world_commands(&mut c);
    assert_eq!(acts[0], ControlAction::TimeScaleSet(2.5f32.to_bits()));
    assert_eq!(acts[1], ControlAction::BudgetSet(ResourceKind::Cpu, 0.5f32.to_bits()));
    assert_eq!(acts[4], ControlAction::BudgetSet(ResourceKind::Network, 7.0f32.to_bits()));
    assert_eq!(f32::from_bits(c.time_scale_bits()), 2.5);
    assert_eq!(f32::from_bits(c.cpu_budget_bits()), 0.5);
    assert_eq!(f32::from_bits(c.ram_budget_mb_bits()), 512.0);
    assert_eq!(f32::from_bits(c.storage_budget_mb_bits()), 10.0);
    assert_eq!(f32::from_bits(c.network_budget_kbps_bits()), 7.0);
}

#[test]
fn devices_register_in_order() {
    let mut c = WorldControl::default();
    c.enqueue(WorldCommand::RegisterVirtualDevice { id: "blk0".to_string(), class: "block".to_string() });
    c.enqueue(WorldCommand::RegisterVirtualDevice { id: "net0".to_string(), class: "net".to_string() });
    process_world_commands(&mut c);
    let ids: Vec<&str> = c.virtual_devices().iter().map(|d| d.id.as_str()).collect();
    let classes: Vec<&str> = c.virtual_devices().iter().map(|d| d.class.as_str()).collect();
    assert_eq!(ids, vec!["blk0", "net0"]);
    assert_eq!(classes, vec!["block", "net"]);
}

#[test]
fn shutdown_app_stops_processing() {
    let mut c = WorldControl::default();
    c.enqueue(WorldCommand::ShutdownGuest);
    c.enqueue(WorldCommand::ShutdownApp);
    c.enqueue(WorldCommand::SetInputEnabled(false));
    let acts = process_world_commands(&mut c);
    assert_eq!(acts, vec![ControlAction::ShutdownGuest, ControlAction::ShutdownApp]);
    assert!(c.input_enabled());
    // the command after the shutdown is still waiting
    let rest = process_world_commands(&mut c);
    assert_eq!(rest, vec![ControlAction::Applied]);
    assert!(!c.input_enabled());
}

#[test]
fn batches_compose() {
    let cmds = || {
        vec![
            WorldCommand::SetInputEnabled(false),
            WorldCommand::LaunchTermux,
            WorldCommand::SetEnvironmentPowered(false),
            WorldCommand::LaunchTermux,
        ]
    };
    let mut one = WorldControl::default();
    for c in cmds() {
        one.enqueue(c);
    }
    let all = process_world_commands(&mut one);
    let mut two = WorldControl::default();
    let mut split = Vec::new();
    for (i, c) in cmds().into_iter().enumerate() {
        two.enqueue(c);
        if i == 1 {
            split.extend(process_world_commands(&mut two));
        }
    }
    split.extend(process_world_commands(&mut two));
    assert_eq!(all, split);
    assert_eq!(one.environment_powered(), two.environment_powered());
    assert_eq!(one.input_enabled(), two.input_enabled());
}
