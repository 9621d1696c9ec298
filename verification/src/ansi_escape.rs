//! What the console does on a control sequence of the terminal.

use vstd::prelude::*;

verus! {

/// Final byte `m`: select the rendition.
pub const FINAL_RENDITION: u8 = 0x6D;

/// Final byte `H`: place the cursor.
pub const FINAL_CURSOR_POSITION: u8 = 0x48;

/// Final byte `A`: move the cursor up.
pub const FINAL_CURSOR_UP: u8 = 0x41;

/// Final byte `J`: erase in the screen.
pub const FINAL_ERASE_SCREEN: u8 = 0x4A;

/// Final byte `K`: erase in the line.
pub const FINAL_ERASE_LINE: u8 = 0x4B;

/// The colour that a colour change selects.
#[derive(Debug, Clone, Copy, PartialEq, Eq)]
pub enum ColorChoice {
    /// No parameter chose a colour: the colour value is 0.
    Unset,
    /// The colour of the palette entry `code`, as a background colour or
    /// not.
    Palette { code: u16, background: bool },
}

/// What the parameters of a colour sequence have set so far.
#[derive(Debug, Clone, Copy, PartialEq, Eq)]
pub struct Rendition {
    pub bold: bool,
    pub color: ColorChoice,
    pub changing_fg: bool,
}

/// One request to the console.
#[derive(Debug, Clone, Copy, PartialEq, Eq)]
pub enum AnsiCommand {
    ChangeColor { bold: bool, color: ColorChoice, letter: u8, foreground: bool },
    SetCursorLocation { x: u16, y: u16 },
    SetCursorLocationUp { by: u16 },
    EraseFromCursorToEndOfScreen,
    EraseFromCursorToBeginningOfScreen,
    EraseFromCursorToEndOfLine,
    EraseFromCursorToBeginningOfLine,
}

/// The rendition before any parameter is read.
pub open spec fn initial_rendition() -> Rendition {
    Rendition { bold: false, color: ColorChoice::Unset, changing_fg: false }
}

/// The rendition after one more parameter: 0 selects palette entry 0, 1
/// switches bold on, 30 to 37 select a foreground colour and 40 to 47 a
/// background colour, each 60 entries higher once bold is on; any other
/// parameter changes nothing.
pub open spec fn apply_parameter(rendition: Rendition, parameter: u16) -> Rendition {
    if parameter == 0 {
        Rendition { color: ColorChoice::Palette { code: 0, background: false }, ..rendition }
    } else if parameter == 1 {
        Rendition { bold: true, ..rendition }
    } else if 30 <= parameter <= 37 {
        Rendition {
            color: ColorChoice::Palette {
                code: (parameter + if rendition.bold {
                    60int
                } else {
                    0int
                }) as u16,
                background: false,
            },
            changing_fg: true,
            ..rendition
        }
    } else if 40 <= parameter <= 47 {
        Rendition {
            color: ColorChoice::Palette {
                code: (parameter + if rendition.bold {
                    60int
                } else {
                    0int
                }) as u16,
                background: true,
            },
            changing_fg: false,
            ..rendition
        }
    } else {
        rendition
    }
}

/// The rendition after all of `parameters`, read from the first on.
pub open spec fn rendition_of(parameters: Seq<u16>) -> Rendition
    decreases parameters.len(),
{
    if parameters.len() == 0 {
        initial_rendition()
    } else {
        apply_parameter(rendition_of(parameters.drop_last()), parameters.last())
    }
}

/// The parameter at `index`, or `fallback` where there are fewer.
pub open spec fn parameter_or(parameters: Seq<u16>, index: int, fallback: u16) -> u16 {
    if 0 <= index < parameters.len() {
        parameters[index]
    } else {
        fallback
    }
}

/// A cursor coordinate counted from 0, for a parameter that counts from
/// 1; a parameter below 1 stands for 1.
pub open spec fn zero_based(parameter: u16) -> u16 {
    if parameter < 1 {
        0
    } else {
        (parameter - 1) as u16
    }
}

/// The requests that the control sequence with the final byte `c` and
/// the given parameters stands for, in the order in which they are made.
pub open spec fn commands_of(parameters: Seq<u16>, c: u8) -> Seq<AnsiCommand> {
    if c == FINAL_RENDITION {
        let rendition = rendition_of(parameters);
        seq![
            AnsiCommand::ChangeColor {
                bold: rendition.bold,
                color: rendition.color,
                letter: c,
                foreground: rendition.changing_fg,
            },
        ]
    } else if c == FINAL_CURSOR_POSITION {
        seq![
            AnsiCommand::SetCursorLocation {
                x: zero_based(parameter_or(parameters, 0, 1)),
                y: zero_based(parameter_or(parameters, 1, 1)),
            },
        ]
    } else if c == FINAL_CURSOR_UP {
        seq![AnsiCommand::SetCursorLocationUp { by: parameter_or(parameters, 0, 1) }]
    } else if c == FINAL_ERASE_SCREEN {
        let mode = parameter_or(parameters, 0, 0);
        if mode == 0 {
            seq![AnsiCommand::EraseFromCursorToEndOfScreen]
        } else if mode == 1 {
            seq![AnsiCommand::EraseFromCursorToBeginningOfScreen]
        } else if mode == 2 {
            seq![
                AnsiCommand::EraseFromCursorToBeginningOfScreen,
                AnsiCommand::EraseFromCursorToEndOfScreen,
            ]
        } else {
            Seq::empty()
        }
    } else if c == FINAL_ERASE_LINE {
        let mode = parameter_or(parameters, 0, 0);
        if mode == 0 {
            seq![AnsiCommand::EraseFromCursorToEndOfLine]
        } else if mode == 1 {
            seq![AnsiCommand::EraseFromCursorToBeginningOfLine]
        } else if mode == 2 {
            seq![
                AnsiCommand::EraseFromCursorToBeginningOfLine,
                AnsiCommand::EraseFromCursorToEndOfLine,
            ]
        } else {
            Seq::empty()
        }
    } else {
        Seq::empty()
    }
}

fn parameter(parameters: &Vec<u16>, index: usize, fallback: u16) -> (value: u16)
    ensures
        value == parameter_or(parameters@, index as int, fallback),
{
    if index < parameters.len() {
        parameters[index]
    } else {
        fallback
    }
}

/// Works out the requests that a control sequence stands for from its
/// parameters and its final byte.
pub fn csi_dispatch(parameters: &Vec<u16>, c: u8) -> (commands: Vec<AnsiCommand>)
    ensures
        commands@ == commands_of(parameters@, c),
{
    let mut commands: Vec<AnsiCommand> = Vec::new();
    if c == FINAL_RENDITION {
        let mut bold = false;
        let mut color = ColorChoice::Unset;
        let mut changing_fg = false;
        let mut i: usize = 0;
        while i < parameters.len()
            invariant
                i <= parameters@.len(),
                (Rendition { bold, color, changing_fg }) == rendition_of(
                    parameters@.subrange(0, i as int),
                ),
            decreases parameters@.len() - i,
        {
            assert(parameters@.subrange(0, i + 1).drop_last() =~= parameters@.subrange(
                0,
                i as int,
            ));
            let n = parameters[i];
            if n == 0 {
                color = ColorChoice::Palette { code: 0, background: false };
            } else if n == 1 {
                bold = true;
            } else if n >= 30 && n <= 37 {
                color = ColorChoice::Palette {
                    code: n + if bold {
                        60
                    } else {
                        0
                    },
                    background: false,
                };
                changing_fg = true;
            } else if n >= 40 && n <= 47 {
                color = ColorChoice::Palette {
                    code: n + if bold {
                        60
                    } else {
                        0
                    },
                    background: true,
                };
                changing_fg = false;
            }
            i += 1;
        }
        assert(parameters@.subrange(0, i as int) =~= parameters@);
        commands.push(AnsiCommand::ChangeColor { bold, color, letter: c, foreground: changing_fg });
    } else if c == FINAL_CURSOR_POSITION {
        let x = parameter(parameters, 0, 1);
        let x = if x < 1 {
            1
        } else {
            x
        };
        let y = parameter(parameters, 1, 1);
        let y = if y < 1 {
            1
        } else {
            y
        };
        commands.push(AnsiCommand::SetCursorLocation { x: x - 1, y: y - 1 });
    } else if c == FINAL_CURSOR_UP {
        let n = parameter(parameters, 0, 1);
        commands.push(AnsiCommand::SetCursorLocationUp { by: n });
    } else if c == FINAL_ERASE_SCREEN {
        let n = parameter(parameters, 0, 0);
        if n == 0 {
            commands.push(AnsiCommand::EraseFromCursorToEndOfScreen);
        } else if n == 1 {
            commands.push(AnsiCommand::EraseFromCursorToBeginningOfScreen);
        } else if n == 2 {
            commands.push(AnsiCommand::EraseFromCursorToBeginningOfScreen);
            commands.push(AnsiCommand::EraseFromCursorToEndOfScreen);
        }
    } else if c == FINAL_ERASE_LINE {
        let n = parameter(parameters, 0, 0);
        if n == 0 {
            commands.push(AnsiCommand::EraseFromCursorToEndOfLine);
        } else if n == 1 {
            commands.push(AnsiCommand::EraseFromCursorToBeginningOfLine);
        } else if n == 2 {
            commands.push(AnsiCommand::EraseFromCursorToBeginningOfLine);
            commands.push(AnsiCommand::EraseFromCursorToEndOfLine);
        }
    }
    assert(commands@ =~= commands_of(parameters@, c));
    commands
}

/// Whether the byte is an ASCII letter.
pub open spec fn is_ascii_letter(byte: u8) -> bool {
    (0x41 <= byte <= 0x5A) || (0x61 <= byte <= 0x7A)
}

/// Finds where a control sequence ends: the index of the first ASCII
/// letter in `fmt`, or 0 where it holds none.
pub fn let_rust_handle_it(fmt: &Vec<u8>) -> (index: usize)
    ensures
        index < fmt@.len() || index == 0,
        forall|i: int| 0 <= i < index ==> !is_ascii_letter(#[trigger] fmt@[i]),
        index < fmt@.len() && is_ascii_letter(fmt@[index as int]) || (index == 0 && forall|i: int|
            0 <= i < fmt@.len() ==> !is_ascii_letter(#[trigger] fmt@[i])),
{
    let mut i: usize = 0;
    while i < fmt.len()
        invariant
            i <= fmt@.len(),
            forall|j: int| 0 <= j < i ==> !is_ascii_letter(#[trigger] fmt@[j]),
        decreases fmt@.len() - i,
    {
        let byte = fmt[i];
        if (byte >= 0x41 && byte <= 0x5A) || (byte >= 0x61 && byte <= 0x7A) {
            return i;
        }
        i += 1;
    }
    0
}

} // verus!
