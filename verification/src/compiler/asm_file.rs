use vstd::prelude::*;

verus! {

use vstd::string::StringExecFns;

/// One appended line: a tab, the given text, a newline.
pub open spec fn line_of(s: Seq<char>) -> Seq<char> {
    "\t"@ + s + "\n"@
}

/// The text of a two-operand instruction.
pub open spec fn instr2_text(instruction: Seq<char>, dst: Seq<char>, src: Seq<char>) -> Seq<
    char,
> {
    instruction + " "@ + dst + ", "@ + src
}

/// The text of a one-operand instruction.
pub open spec fn instr1_text(instruction: Seq<char>, src: Seq<char>) -> Seq<char> {
    instruction + " "@ + src
}

/// Initial contents of the read-only-data section.
pub open spec fn rodata_start() -> Seq<char> {
    "section .rodata\n"@
}

/// Initial contents of the initialized-data section: the two always-present
/// format strings for integer and floating output.
pub open spec fn data_start() -> Seq<char> {
    "section .data\n"@ + line_of("__aeiou__format_i32 db \"%d\", 10, 0"@) + line_of(
        "__aeiou__format_f64 db \"%f\", 10, 0"@,
    )
}

/// Initial contents of the uninitialized-data section.
pub open spec fn bss_start() -> Seq<char> {
    "section .bss\n"@
}

/// Initial contents of the instruction section: entry symbol, the runtime
/// routines relied on, and the stack-frame setup.
pub open spec fn text_start() -> Seq<char> {
    "section .text\n    global main\n    extern printf\n    extern exit\nmain:\n"@ + line_of(
        "push rbp"@,
    ) + line_of("mov rbp, rsp"@)
}

/// The fixed stack-frame teardown and zero-status process exit.
pub open spec fn epilogue() -> Seq<char> {
    "\n\tleave\n\tmov rdi, 0\n\tcall exit\n\tret\n\t"@
}

/// Text of the finished assembly file: the four sections in fixed order,
/// separated by blank lines.
pub open spec fn sections_text(
    rodata: Seq<char>,
    data: Seq<char>,
    bss: Seq<char>,
    text: Seq<char>,
) -> Seq<char> {
    rodata + "\n"@ + data + "\n"@ + bss + "\n"@ + text
}

/// Plain-text accumulator for generated assembly: four named append targets
/// and a finalize step that concatenates them in fixed section order.
pub struct AsmFile {
    pub rodata_section: String,
    pub data_section: String,
    pub bss_section: String,
    pub text_section: String,
}

impl AsmFile {
    pub fn new() -> (r: AsmFile)
        ensures
            r.rodata_section@ == rodata_start(),
            r.data_section@ == data_start(),
            r.bss_section@ == bss_start(),
            r.text_section@ == text_start(),
    {
        let mut gen = AsmFile {
            rodata_section: String::from_str("section .rodata\n"),
            data_section: String::from_str("section .data\n"),
            bss_section: String::from_str("section .bss\n"),
            text_section: String::from_str(
                "section .text\n    global main\n    extern printf\n    extern exit\nmain:\n",
            ),
        };
        gen.write_data("__aeiou__format_i32 db \"%d\", 10, 0");
        gen.write_data("__aeiou__format_f64 db \"%f\", 10, 0");
        gen.write_text("push rbp");
        gen.write_text("mov rbp, rsp");
        proof {
            assert(gen.data_section@ =~= data_start());
            assert(gen.text_section@ =~= text_start());
        }
        gen
    }

    pub fn write_rodata(&mut self, input: &str)
        ensures
            final(self).rodata_section@ == old(self).rodata_section@ + line_of(input@),
            final(self).data_section == old(self).data_section,
            final(self).bss_section == old(self).bss_section,
            final(self).text_section == old(self).text_section,
    {
        self.rodata_section.append("\t");
        self.rodata_section.append(input);
        self.rodata_section.append("\n");
        proof {
            assert(self.rodata_section@ =~= old(self).rodata_section@ + line_of(input@));
        }
    }

    pub fn write_data(&mut self, input: &str)
        ensures
            final(self).data_section@ == old(self).data_section@ + line_of(input@),
            final(self).rodata_section == old(self).rodata_section,
            final(self).bss_section == old(self).bss_section,
            final(self).text_section == old(self).text_section,
    {
        self.data_section.append("\t");
        self.data_section.append(input);
        self.data_section.append("\n");
        proof {
            assert(self.data_section@ =~= old(self).data_section@ + line_of(input@));
        }
    }

    pub fn write_bss(&mut self, input: &str)
        ensures
            final(self).bss_section@ == old(self).bss_section@ + line_of(input@),
            final(self).rodata_section == old(self).rodata_section,
            final(self).data_section == old(self).data_section,
            final(self).text_section == old(self).text_section,
    {
        self.bss_section.append("\t");
        self.bss_section.append(input);
        self.bss_section.append("\n");
        proof {
            assert(self.bss_section@ =~= old(self).bss_section@ + line_of(input@));
        }
    }

    pub fn write_text(&mut self, input: &str)
        ensures
            final(self).text_section@ == old(self).text_section@ + line_of(input@),
            final(self).rodata_section == old(self).rodata_section,
            final(self).data_section == old(self).data_section,
            final(self).bss_section == old(self).bss_section,
    {
        self.text_section.append("\t");
        self.text_section.append(input);
        self.text_section.append("\n");
        proof {
            assert(self.text_section@ =~= old(self).text_section@ + line_of(input@));
        }
    }

    pub fn write_instruction2(&mut self, instruction: &str, dst: &str, src: &str)
        ensures
            final(self).text_section@ == old(self).text_section@ + line_of(
                instr2_text(instruction@, dst@, src@),
            ),
            final(self).rodata_section == old(self).rodata_section,
            final(self).data_section == old(self).data_section,
            final(self).bss_section == old(self).bss_section,
    {
        let mut s = String::from_str(instruction);
        s.append(" ");
        s.append(dst);
        s.append(", ");
        s.append(src);
        proof {
            assert(s@ =~= instr2_text(instruction@, dst@, src@));
        }
        self.write_text(s.as_str());
    }

    pub fn write_instruction1(&mut self, instruction: &str, src: &str)
        ensures
            final(self).text_section@ == old(self).text_section@ + line_of(
                instr1_text(instruction@, src@),
            ),
            final(self).rodata_section == old(self).rodata_section,
            final(self).data_section == old(self).data_section,
            final(self).bss_section == old(self).bss_section,
    {
        let mut s = String::from_str(instruction);
        s.append(" ");
        s.append(src);
        proof {
            assert(s@ =~= instr1_text(instruction@, src@));
        }
        self.write_text(s.as_str());
    }

    pub fn finalize(&mut self) -> (r: String)
        ensures
            final(self).text_section@ == old(self).text_section@ + line_of(epilogue()),
            final(self).rodata_section == old(self).rodata_section,
            final(self).data_section == old(self).data_section,
            final(self).bss_section == old(self).bss_section,
            r@ == sections_text(
                final(self).rodata_section@,
                final(self).data_section@,
                final(self).bss_section@,
                final(self).text_section@,
            ),
    {
        self.write_text("\n\tleave\n\tmov rdi, 0\n\tcall exit\n\tret\n\t");
        let mut out = self.rodata_section.clone();
        out.append("\n");
        out.append(self.data_section.as_str());
        out.append("\n");
        out.append(self.bss_section.as_str());
        out.append("\n");
        out.append(self.text_section.as_str());
        proof {
            assert(out@ =~= sections_text(
                self.rodata_section@,
                self.data_section@,
                self.bss_section@,
                self.text_section@,
            ));
        }
        out
    }
}

} // verus!
