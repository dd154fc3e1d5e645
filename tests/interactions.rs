use holo_bot::bot::{HoloBot, TargetArch};
use holo_bot::interactions::{InteractionOptions, RegisteredInteraction, UploadedCommand};

fn command(name: &str) -> RegisteredInteraction {
    RegisteredInteraction {
        command_id: None,
        name: name.to_string(),
        options: InteractionOptions::new(),
        config_json: b"{}".to_vec(),
    }
}

#[test]
fn uploaded_ids_go_to_commands_of_the_same_name() {
    let mut commands = vec![command("live"), command("ogey"), command("live")];
    let uploaded = vec![
        UploadedCommand { id: 11, name: "ogey".to_string() },
        UploadedCommand { id: 12, name: "live".to_string() },
        UploadedCommand { id: 13, name: "unknown".to_string() },
    ];
    RegisteredInteraction::record_uploaded(&mut commands, &uploaded);
    assert_eq!(commands[0].command_id, Some(12));
    assert_eq!(commands[1].command_id, Some(11));
    assert_eq!(commands[2].command_id, None);
}

#[test]
fn commands_are_found_by_name() {
    let commands = vec![command("live"), command("ogey")];
    assert_eq!(RegisteredInteraction::find(&commands, "ogey"), Some(1));
    assert_eq!(RegisteredInteraction::find(&commands, "og"), None);
    assert_eq!(RegisteredInteraction::find(&Vec::new(), "ogey"), None);
}

#[test]
fn config_path_depends_on_target() {
    assert_eq!(HoloBot::get_config_path(TargetArch::Arm), "production.json");
    assert_eq!(HoloBot::get_config_path(TargetArch::X86_64), "settings/development.json");
}
