use vstd::prelude::*;

verus! {

/// An operator intent for the device: a setpoint with its payload, or a
/// change of power state.
#[derive(Clone, Copy, Debug, PartialEq)]
pub enum MotorCommand<V> {
    Angle(V),
    Velocity(V),
    Torque(V),
    Enable,
    Disable,
}

/// The text line that carries `c` to the device link, its payload already
/// written out as text.
pub open spec fn line_text(c: MotorCommand<String>) -> Seq<char> {
    match c {
        MotorCommand::Angle(v) => "Angle "@ + v@,
        MotorCommand::Velocity(v) => "Velocity "@ + v@,
        MotorCommand::Torque(v) => "Torque "@ + v@,
        MotorCommand::Enable => "Enable"@,
        MotorCommand::Disable => "Disable"@,
    }
}

/// Writes the device-link line for a command whose payload is given as text:
/// the setpoint's name, a space and the payload, or the bare power action.
pub fn command_line(c: &MotorCommand<String>) -> (r: String)
    ensures
        r@ == line_text(*c),
{
    match c {
        MotorCommand::Angle(v) => {
            let mut line = String::from_str("Angle ");
            line.append(v.as_str());
            line
        },
        MotorCommand::Velocity(v) => {
            let mut line = String::from_str("Velocity ");
            line.append(v.as_str());
            line
        },
        MotorCommand::Torque(v) => {
            let mut line = String::from_str("Torque ");
            line.append(v.as_str());
            line
        },
        MotorCommand::Enable => String::from_str("Enable"),
        MotorCommand::Disable => String::from_str("Disable"),
    }
}

} // verus!
