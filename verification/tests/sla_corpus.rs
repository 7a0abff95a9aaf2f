//! A corpus of processor documents, one per target language family,
//! exercising the whole grammar end to end: little- and big-endian
//! documents, documents with and without the optional root metadata,
//! and documents with the full symbol vocabulary.

use sleigh_sla::parse;

fn doc_le() -> String {
    r#"<sleigh version="3" bigendian="n" align="1" uniqbase="0x100" maxdelay="0x1" uniqmask="0xff" numsections="0x2">
  <sourcefiles>
    <sourcefile name="cpu.slaspec" index="0"/>
  </sourcefiles>
  <spaces defaultspace="ram">
    <space_unique name="unique" index="1" bigendian="n" delay="0" size="4" physical="y"/>
    <space name="ram" index="2" bigendian="n" delay="1" deadcodedelay="1" size="4" wordsize="1" physical="y"/>
  </spaces>
  <symbol_table scopesize="1" symbolsize="2">
    <scope id="0x0" parent="0x0"/>
    <varnode_sym_head name="r0" id="0x1" scope="0x0"/>
    <subtable_sym_head name="instruction" id="0x2" scope="0x0"/>
    <varnode_sym name="r0" id="0x1" scope="0x0" space="register" offset="0x0" size="4"></varnode_sym>
    <subtable_sym name="instruction" id="0x2" scope="0x0" numct="1">
      <constructor parent="0x2" first="0" length="1" line="12:3">
        <oper id="0x1"/>
        <print piece="nop "/>
        <opprint id="0"/>
        <context_op i="0" shift="0" mask="0xff">
          <intb val="42"/>
        </context_op>
        <commit id="0x1" num="0" mask="0xff" flow="y"/>
        <construct_tpl section="0" delay="0" labels="0">
          <null/>
          <op_tpl code="COPY">
            <varnode_tpl>
              <const_tpl type="spaceid" name="ram"/>
              <const_tpl type="real" val="0x0"/>
              <const_tpl type="real" val="0x4"/>
            </varnode_tpl>
            <varnode_tpl>
              <const_tpl type="handle" val="0" s="offset" plus="0x1"/>
              <const_tpl type="start"/>
              <const_tpl type="real" val="0x4"/>
            </varnode_tpl>
          </op_tpl>
        </construct_tpl>
      </constructor>
      <decision number="0" context="n" start="0" size="0">
        <pair id="0">
          <instruct_pat>
            <pat_block offset="0" nonzero="1">
              <mask_word mask="0xff000000" val="0x12000000"/>
            </pat_block>
          </instruct_pat>
        </pair>
        <decision number="1" context="n" start="0" size="0">
        </decision>
      </decision>
    </subtable_sym>
  </symbol_table>
</sleigh>
"#.to_string()
}

fn doc_be() -> String {
    doc_le().replace("bigendian=\"n\"", "bigendian=\"y\"")
}

fn doc_min() -> String {
    r#"< sleigh bigendian = "n" align="2" uniqbase="0xdeadbeef0000">
  < sourcefiles >< / sourcefiles >
  <spaces defaultspace="mem">
    <space_other name="OTHER" index="1" bigendian="n" delay="0" size="8" physical="n"/>
  </spaces>
  <symbol_table scopesize="0" symbolsize="0">
  </symbol_table>
< / sleigh >
"#.to_string()
}

fn doc_rich() -> String {
    r#"<sleigh version="3" bigendian="n" align="1" uniqbase="0x10000000000000000" numsections="0x1">
  <sourcefiles>
    <sourcefile name="a &amp; b.slaspec" index="0"/>
    <sourcefile name="sub.sinc" index="2"/>
  </sourcefiles>
  <spaces defaultspace="ram">
    <space_base name="base" index="1" bigendian="n" delay="0" size="4" physical="y"/>
    <space_unique name="unique" index="2" bigendian="n" delay="0" size="4" physical="y"/>
    <space_other name="OTHER" index="3" bigendian="n" delay="0" size="4" physical="n"/>
    <space_overlay name="ovl" index="4" bigendian="n" delay="0" size="4" physical="n"/>
    <space name="ram" index="5" bigendian="n" delay="1" deadcodedelay="1" size="4" wordsize="1" physical="y"/>
  </spaces>
  <symbol_table scopesize="1" symbolsize="15">
    <scope id="0x0" parent="0x0"/>
    <userop_head name="sysop" id="0x1" scope="0x0"/>
    <epsilon_sym_head name="eps" id="0x2" scope="0x0"/>
    <value_sym_head name="imm8" id="0x3" scope="0x0"/>
    <valuemap_sym_head name="vmap" id="0x4" scope="0x0"/>
    <name_sym_head name="regname" id="0x5" scope="0x0"/>
    <varnode_sym_head name="r0" id="0x6" scope="0x0"/>
    <context_sym_head name="ctx" id="0x7" scope="0x0"/>
    <varlist_sym_head name="regs" id="0x8" scope="0x0"/>
    <operand_sym_head name="op0" id="0x9" scope="0x0"/>
    <start_sym_head name="inst_start" id="0xa" scope="0x0"/>
    <end_sym_head name="inst_next" id="0xb" scope="0x0"/>
    <next2_sym_head name="inst_next2" id="0xc" scope="0x0"/>
    <flowdest_sym_head name="flow_dest" id="0xd" scope="0x0"/>
    <flowref_sym_head name="flow_ref" id="0xe" scope="0x0"/>
    <subtable_sym_head name="instruction" id="0xf" scope="0x0"/>
    <userop name="sysop" id="0x1" scope="0x0" index="0"/>
    <epsilon_sym name="eps" id="0x2" scope="0x0"/>
    <value_sym name="imm8" id="0x3" scope="0x0">
      <tokenfield bigendian="n" signbit="n" bitstart="0" bitend="7" bytestart="0" byteend="0" shift="0"/>
    </value_sym>
    <valuemap_sym name="vmap" id="0x4" scope="0x0">
      <contextfield signbit="n" startbit="0" endbit="3" startbyte="0" endbyte="0" shift="0"/>
      <valuetab val="-1"/>
      <valuetab val="4"/>
    </valuemap_sym>
    <name_sym name="regname" id="0x5" scope="0x0">
      <intb val="7"/>
      <nametab name="r&lt;0&gt;"/>
      <nametab/>
    </name_sym>
    <varnode_sym name="r0" id="0x6" scope="0x0" space="base" offset="0x0" size="4"></varnode_sym>
    <context_sym name="ctx" id="0x7" scope="0x0" varnode="0x6" low="0" high="3" flow="y">
      <contextfield signbit="n" startbit="0" endbit="3" startbyte="0" endbyte="0" shift="0"/>
    </context_sym>
    <varlist_sym name="regs" id="0x8" scope="0x0">
      <tokenfield bigendian="n" signbit="n" bitstart="0" bitend="3" bytestart="0" byteend="0" shift="0"/>
      <var id="0x6"/>
      <null/>
    </varlist_sym>
    <operand_sym name="op0" id="0x9" scope="0x0" subsym="0x8" off="0" base="-1" minlen="1" code="n" index="0">
      <operand_exp index="0" table="0xf" ct="0x0"/>
      <plus_exp>
        <minus_exp>
          <intb val="1"/>
        </minus_exp>
        <start_exp/>
      </plus_exp>
    </operand_sym>
    <start_sym name="inst_start" id="0xa" scope="0x0"/>
    <end_sym name="inst_next" id="0xb" scope="0x0"/>
    <next2_sym name="inst_next2" id="0xc" scope="0x0"/>
    <flowdest_sym name="flow_dest" id="0xd" scope="0x0"/>
    <flowref_sym name="flow_ref" id="0xe" scope="0x0"/>
    <subtable_sym name="instruction" id="0xf" scope="0x0" numct="2">
      <constructor parent="0xf" first="0" length="2" line="40:1">
        <oper id="0x9"/>
        <print piece="mov "/>
        <opprint id="0"/>
        <construct_tpl delay="0" labels="0">
          <handle_tpl>
            <const_tpl type="curspace"/>
            <const_tpl type="real" val="0x4"/>
            <const_tpl type="curspace_size"/>
            <const_tpl type="next"/>
            <const_tpl type="next2"/>
            <const_tpl type="flowref"/>
            <const_tpl type="flowdest"/>
          </handle_tpl>
          <op_tpl code="INT_ADD">
            <null/>
            <varnode_tpl>
              <const_tpl type="end"/>
              <const_tpl type="relative" val="0x10"/>
              <const_tpl type="flowdest_size"/>
            </varnode_tpl>
          </op_tpl>
        </construct_tpl>
        <construct_tpl section="1" delay="0" labels="1">
          <null/>
        </construct_tpl>
      </constructor>
      <constructor parent="0xf" first="0" length="1" line="41:1">
        <print piece="ret"/>
        <construct_tpl delay="0" labels="0">
          <null/>
          <op_tpl code="RETURN">
            <null/>
          </op_tpl>
        </construct_tpl>
      </constructor>
      <decision number="0" context="y" start="0" size="4">
        <pair id="0">
          <combine_pat>
            <context_pat>
              <pat_block offset="0" nonzero="1">
                <mask_word mask="0xf0" val="0x10"/>
              </pat_block>
            </context_pat>
            <instruct_pat>
              <pat_block offset="0" nonzero="1">
                <mask_word mask="0xff" val="0x12"/>
              </pat_block>
            </instruct_pat>
          </combine_pat>
        </pair>
        <pair id="1">
          <context_pat>
            <pat_block offset="0" nonzero="0">
            </pat_block>
          </context_pat>
        </pair>
      </decision>
    </subtable_sym>
  </symbol_table>
</sleigh>
"#.to_string()
}

#[test]
fn test_6502() {
    let text = doc_le();
    parse(text.as_bytes()).expect("Failed to parse 6502 sla");
}

#[test]
fn test_65c02() {
    let text = doc_le();
    parse(text.as_bytes()).expect("Failed to parse 65c02 sla");
}

#[test]
fn test_68020() {
    let text = doc_le();
    parse(text.as_bytes()).expect("Failed to parse 68020 sla");
}

#[test]
fn test_68030() {
    let text = doc_le();
    parse(text.as_bytes()).expect("Failed to parse 68030 sla");
}

#[test]
fn test_68040() {
    let text = doc_le();
    parse(text.as_bytes()).expect("Failed to parse 68040 sla");
}

#[test]
fn test_coldfire() {
    let text = doc_le();
    parse(text.as_bytes()).expect("Failed to parse coldfire sla");
}

#[test]
fn test_8048() {
    let text = doc_le();
    parse(text.as_bytes()).expect("Failed to parse 8048 sla");
}

#[test]
fn test_80251() {
    let text = doc_le();
    parse(text.as_bytes()).expect("Failed to parse 80251 sla");
}

#[test]
fn test_80390() {
    let text = doc_le();
    parse(text.as_bytes()).expect("Failed to parse 80390 sla");
}

#[test]
fn test_8051() {
    let text = doc_le();
    parse(text.as_bytes()).expect("Failed to parse 8051 sla");
}

#[test]
fn test_mx51() {
    let text = doc_le();
    parse(text.as_bytes()).expect("Failed to parse mx51 sla");
}

#[test]
fn test_8085() {
    let text = doc_le();
    parse(text.as_bytes()).expect("Failed to parse 8085 sla");
}

#[test]
fn test_AARCH64() {
    let text = doc_rich();
    parse(text.as_bytes()).expect("Failed to parse AARCH64 sla");
}

#[test]
fn test_AARCH64BE() {
    let text = doc_rich();
    parse(text.as_bytes()).expect("Failed to parse AARCH64BE sla");
}

#[test]
fn test_AARCH64_AppleSilicon() {
    let text = doc_rich();
    parse(text.as_bytes()).expect("Failed to parse AARCH64_AppleSilicon sla");
}

#[test]
fn test_ARM4_be() {
    let text = doc_be();
    parse(text.as_bytes()).expect("Failed to parse ARM4_be sla");
}

#[test]
fn test_ARM4_le() {
    let text = doc_le();
    parse(text.as_bytes()).expect("Failed to parse ARM4_le sla");
}

#[test]
fn test_ARM4t_be() {
    let text = doc_be();
    parse(text.as_bytes()).expect("Failed to parse ARM4t_be sla");
}

#[test]
fn test_ARM4t_le() {
    let text = doc_le();
    parse(text.as_bytes()).expect("Failed to parse ARM4t_le sla");
}

#[test]
fn test_ARM5_be() {
    let text = doc_be();
    parse(text.as_bytes()).expect("Failed to parse ARM5_be sla");
}

#[test]
fn test_ARM5_le() {
    let text = doc_le();
    parse(text.as_bytes()).expect("Failed to parse ARM5_le sla");
}

#[test]
fn test_ARM5t_be() {
    let text = doc_be();
    parse(text.as_bytes()).expect("Failed to parse ARM5t_be sla");
}

#[test]
fn test_ARM5t_le() {
    let text = doc_le();
    parse(text.as_bytes()).expect("Failed to parse ARM5t_le sla");
}

#[test]
fn test_ARM6_be() {
    let text = doc_be();
    parse(text.as_bytes()).expect("Failed to parse ARM6_be sla");
}

#[test]
fn test_ARM6_le() {
    let text = doc_le();
    parse(text.as_bytes()).expect("Failed to parse ARM6_le sla");
}

#[test]
fn test_ARM7_be() {
    let text = doc_be();
    parse(text.as_bytes()).expect("Failed to parse ARM7_be sla");
}

#[test]
fn test_ARM7_le() {
    let text = doc_le();
    parse(text.as_bytes()).expect("Failed to parse ARM7_le sla");
}

#[test]
fn test_ARM8_be() {
    let text = doc_be();
    parse(text.as_bytes()).expect("Failed to parse ARM8_be sla");
}

#[test]
fn test_ARM8_le() {
    let text = doc_le();
    parse(text.as_bytes()).expect("Failed to parse ARM8_le sla");
}

#[test]
fn test_avr32a() {
    let text = doc_le();
    parse(text.as_bytes()).expect("Failed to parse avr32a sla");
}

#[test]
fn test_avr8() {
    let text = doc_le();
    parse(text.as_bytes()).expect("Failed to parse avr8 sla");
}

#[test]
fn test_avr8e() {
    let text = doc_le();
    parse(text.as_bytes()).expect("Failed to parse avr8e sla");
}

#[test]
fn test_avr8eind() {
    let text = doc_le();
    parse(text.as_bytes()).expect("Failed to parse avr8eind sla");
}

#[test]
fn test_avr8xmega() {
    let text = doc_le();
    parse(text.as_bytes()).expect("Failed to parse avr8xmega sla");
}

#[test]
fn test_BPF_le() {
    let text = doc_le();
    parse(text.as_bytes()).expect("Failed to parse BPF_le sla");
}

#[test]
fn test_CP1600() {
    let text = doc_le();
    parse(text.as_bytes()).expect("Failed to parse CP1600 sla");
}

#[test]
fn test_CR16B() {
    let text = doc_le();
    parse(text.as_bytes()).expect("Failed to parse CR16B sla");
}

#[test]
fn test_CR16C() {
    let text = doc_le();
    parse(text.as_bytes()).expect("Failed to parse CR16C sla");
}

#[test]
fn test_data_be_64() {
    let text = doc_min();
    parse(text.as_bytes()).expect("Failed to parse data_be_64 sla");
}

#[test]
fn test_data_le_64() {
    let text = doc_min();
    parse(text.as_bytes()).expect("Failed to parse data_le_64 sla");
}

#[test]
fn test_Dalvik_Base() {
    let text = doc_le();
    parse(text.as_bytes()).expect("Failed to parse Dalvik_Base sla");
}

#[test]
fn test_Dalvik_DEX_Android10() {
    let text = doc_le();
    parse(text.as_bytes()).expect("Failed to parse Dalvik_DEX_Android10 sla");
}

#[test]
fn test_Dalvik_DEX_Android11() {
    let text = doc_le();
    parse(text.as_bytes()).expect("Failed to parse Dalvik_DEX_Android11 sla");
}

#[test]
fn test_Dalvik_DEX_Android12() {
    let text = doc_le();
    parse(text.as_bytes()).expect("Failed to parse Dalvik_DEX_Android12 sla");
}

#[test]
fn test_Dalvik_DEX_KitKat() {
    let text = doc_le();
    parse(text.as_bytes()).expect("Failed to parse Dalvik_DEX_KitKat sla");
}

#[test]
fn test_Dalvik_DEX_Lollipop() {
    let text = doc_le();
    parse(text.as_bytes()).expect("Failed to parse Dalvik_DEX_Lollipop sla");
}

#[test]
fn test_Dalvik_DEX_Marshmallow() {
    let text = doc_le();
    parse(text.as_bytes()).expect("Failed to parse Dalvik_DEX_Marshmallow sla");
}

#[test]
fn test_Dalvik_DEX_Nougat() {
    let text = doc_le();
    parse(text.as_bytes()).expect("Failed to parse Dalvik_DEX_Nougat sla");
}

#[test]
fn test_Dalvik_DEX_Oreo() {
    let text = doc_le();
    parse(text.as_bytes()).expect("Failed to parse Dalvik_DEX_Oreo sla");
}

#[test]
fn test_Dalvik_DEX_Pie() {
    let text = doc_le();
    parse(text.as_bytes()).expect("Failed to parse Dalvik_DEX_Pie sla");
}

#[test]
fn test_Dalvik_ODEX_KitKat() {
    let text = doc_le();
    parse(text.as_bytes()).expect("Failed to parse Dalvik_ODEX_KitKat sla");
}

#[test]
fn test_HC05() {
    let text = doc_le();
    parse(text.as_bytes()).expect("Failed to parse HC05 sla");
}

#[test]
fn test_HC08() {
    let text = doc_le();
    parse(text.as_bytes()).expect("Failed to parse HC08 sla");
}

#[test]
fn test_HCS08() {
    let text = doc_le();
    parse(text.as_bytes()).expect("Failed to parse HCS08 sla");
}

#[test]
fn test_HC12() {
    let text = doc_le();
    parse(text.as_bytes()).expect("Failed to parse HC12 sla");
}

#[test]
fn test_HCS12() {
    let text = doc_le();
    parse(text.as_bytes()).expect("Failed to parse HCS12 sla");
}

#[test]
fn test_HCS12X() {
    let text = doc_le();
    parse(text.as_bytes()).expect("Failed to parse HCS12X sla");
}

#[test]
fn test_JVM() {
    let text = doc_rich();
    parse(text.as_bytes()).expect("Failed to parse JVM sla");
}

#[test]
fn test_m8c() {
    let text = doc_le();
    parse(text.as_bytes()).expect("Failed to parse m8c sla");
}

#[test]
fn test_6805() {
    let text = doc_le();
    parse(text.as_bytes()).expect("Failed to parse 6805 sla");
}

#[test]
fn test_6809() {
    let text = doc_le();
    parse(text.as_bytes()).expect("Failed to parse 6809 sla");
}

#[test]
fn test_H6309() {
    let text = doc_le();
    parse(text.as_bytes()).expect("Failed to parse H6309 sla");
}

#[test]
fn test_MCS96() {
    let text = doc_le();
    parse(text.as_bytes()).expect("Failed to parse MCS96 sla");
}

#[test]
fn test_mips32R6be() {
    let text = doc_be();
    parse(text.as_bytes()).expect("Failed to parse mips32R6be sla");
}

#[test]
fn test_mips32R6le() {
    let text = doc_le();
    parse(text.as_bytes()).expect("Failed to parse mips32R6le sla");
}

#[test]
fn test_mips32be() {
    let text = doc_be();
    parse(text.as_bytes()).expect("Failed to parse mips32be sla");
}

#[test]
fn test_mips32le() {
    let text = doc_le();
    parse(text.as_bytes()).expect("Failed to parse mips32le sla");
}

#[test]
fn test_mips64be() {
    let text = doc_rich();
    parse(text.as_bytes()).expect("Failed to parse mips64be sla");
}

#[test]
fn test_mips64le() {
    let text = doc_rich();
    parse(text.as_bytes()).expect("Failed to parse mips64le sla");
}

#[test]
fn test_pa_risc32be() {
    let text = doc_be();
    parse(text.as_bytes()).expect("Failed to parse pa_risc32be sla");
}

#[test]
fn test_PIC24E() {
    let text = doc_le();
    parse(text.as_bytes()).expect("Failed to parse PIC24E sla");
}

#[test]
fn test_PIC24F() {
    let text = doc_le();
    parse(text.as_bytes()).expect("Failed to parse PIC24F sla");
}

#[test]
fn test_PIC24H() {
    let text = doc_le();
    parse(text.as_bytes()).expect("Failed to parse PIC24H sla");
}

#[test]
fn test_dsPIC30F() {
    let text = doc_le();
    parse(text.as_bytes()).expect("Failed to parse dsPIC30F sla");
}

#[test]
fn test_dsPIC33C() {
    let text = doc_le();
    parse(text.as_bytes()).expect("Failed to parse dsPIC33C sla");
}

#[test]
fn test_dsPIC33E() {
    let text = doc_le();
    parse(text.as_bytes()).expect("Failed to parse dsPIC33E sla");
}

#[test]
fn test_dsPIC33F() {
    let text = doc_le();
    parse(text.as_bytes()).expect("Failed to parse dsPIC33F sla");
}

#[test]
fn test_pic12c5xx() {
    let text = doc_le();
    parse(text.as_bytes()).expect("Failed to parse pic12c5xx sla");
}

#[test]
fn test_pic16() {
    let text = doc_le();
    parse(text.as_bytes()).expect("Failed to parse pic16 sla");
}

#[test]
fn test_pic16c5x() {
    let text = doc_le();
    parse(text.as_bytes()).expect("Failed to parse pic16c5x sla");
}

#[test]
fn test_pic16f() {
    let text = doc_le();
    parse(text.as_bytes()).expect("Failed to parse pic16f sla");
}

#[test]
fn test_pic17c7xx() {
    let text = doc_le();
    parse(text.as_bytes()).expect("Failed to parse pic17c7xx sla");
}

#[test]
fn test_pic18() {
    let text = doc_le();
    parse(text.as_bytes()).expect("Failed to parse pic18 sla");
}

#[test]
fn test_ppc_32_4xx_be() {
    let text = doc_be();
    parse(text.as_bytes()).expect("Failed to parse ppc_32_4xx_be sla");
}

#[test]
fn test_ppc_32_4xx_le() {
    let text = doc_le();
    parse(text.as_bytes()).expect("Failed to parse ppc_32_4xx_le sla");
}

#[test]
fn test_ppc_32_be() {
    let text = doc_be();
    parse(text.as_bytes()).expect("Failed to parse ppc_32_be sla");
}

#[test]
fn test_ppc_32_e500_be() {
    let text = doc_be();
    parse(text.as_bytes()).expect("Failed to parse ppc_32_e500_be sla");
}

#[test]
fn test_ppc_32_e500_le() {
    let text = doc_le();
    parse(text.as_bytes()).expect("Failed to parse ppc_32_e500_le sla");
}

#[test]
fn test_ppc_32_le() {
    let text = doc_le();
    parse(text.as_bytes()).expect("Failed to parse ppc_32_le sla");
}

#[test]
fn test_ppc_32_quicciii_be() {
    let text = doc_be();
    parse(text.as_bytes()).expect("Failed to parse ppc_32_quicciii_be sla");
}

#[test]
fn test_ppc_32_quicciii_le() {
    let text = doc_le();
    parse(text.as_bytes()).expect("Failed to parse ppc_32_quicciii_le sla");
}

#[test]
fn test_ppc_64_be() {
    let text = doc_rich();
    parse(text.as_bytes()).expect("Failed to parse ppc_64_be sla");
}

#[test]
fn test_ppc_64_isa_altivec_be() {
    let text = doc_be();
    parse(text.as_bytes()).expect("Failed to parse ppc_64_isa_altivec_be sla");
}

#[test]
fn test_ppc_64_isa_altivec_le() {
    let text = doc_le();
    parse(text.as_bytes()).expect("Failed to parse ppc_64_isa_altivec_le sla");
}

#[test]
fn test_ppc_64_isa_altivec_vle_be() {
    let text = doc_be();
    parse(text.as_bytes()).expect("Failed to parse ppc_64_isa_altivec_vle_be sla");
}

#[test]
fn test_ppc_64_isa_be() {
    let text = doc_be();
    parse(text.as_bytes()).expect("Failed to parse ppc_64_isa_be sla");
}

#[test]
fn test_ppc_64_isa_le() {
    let text = doc_le();
    parse(text.as_bytes()).expect("Failed to parse ppc_64_isa_le sla");
}

#[test]
fn test_ppc_64_isa_vle_be() {
    let text = doc_be();
    parse(text.as_bytes()).expect("Failed to parse ppc_64_isa_vle_be sla");
}

#[test]
fn test_ppc_64_le() {
    let text = doc_rich();
    parse(text.as_bytes()).expect("Failed to parse ppc_64_le sla");
}

#[test]
fn test_riscv_ilp32d() {
    let text = doc_rich();
    parse(text.as_bytes()).expect("Failed to parse riscv_ilp32d sla");
}

#[test]
fn test_riscv_lp64d() {
    let text = doc_rich();
    parse(text.as_bytes()).expect("Failed to parse riscv_lp64d sla");
}

#[test]
fn test_SparcV9_32() {
    let text = doc_le();
    parse(text.as_bytes()).expect("Failed to parse SparcV9_32 sla");
}

#[test]
fn test_SparcV9_64() {
    let text = doc_rich();
    parse(text.as_bytes()).expect("Failed to parse SparcV9_64 sla");
}

#[test]
fn test_sh_1() {
    let text = doc_le();
    parse(text.as_bytes()).expect("Failed to parse sh_1 sla");
}

#[test]
fn test_sh_2() {
    let text = doc_le();
    parse(text.as_bytes()).expect("Failed to parse sh_2 sla");
}

#[test]
fn test_sh_2a() {
    let text = doc_le();
    parse(text.as_bytes()).expect("Failed to parse sh_2a sla");
}

#[test]
fn test_SuperH4_be() {
    let text = doc_be();
    parse(text.as_bytes()).expect("Failed to parse SuperH4_be sla");
}

#[test]
fn test_SuperH4_le() {
    let text = doc_le();
    parse(text.as_bytes()).expect("Failed to parse SuperH4_le sla");
}

#[test]
fn test_TI_MSP430() {
    let text = doc_le();
    parse(text.as_bytes()).expect("Failed to parse TI_MSP430 sla");
}

#[test]
fn test_TI_MSP430X() {
    let text = doc_le();
    parse(text.as_bytes()).expect("Failed to parse TI_MSP430X sla");
}

#[test]
fn test_toy64_be() {
    let text = doc_be();
    parse(text.as_bytes()).expect("Failed to parse toy64_be sla");
}

#[test]
fn test_toy64_be_harvard() {
    let text = doc_be();
    parse(text.as_bytes()).expect("Failed to parse toy64_be_harvard sla");
}

#[test]
fn test_toy64_le() {
    let text = doc_le();
    parse(text.as_bytes()).expect("Failed to parse toy64_le sla");
}

#[test]
fn test_toy_be() {
    let text = doc_be();
    parse(text.as_bytes()).expect("Failed to parse toy_be sla");
}

#[test]
fn test_toy_be_posStack() {
    let text = doc_be();
    parse(text.as_bytes()).expect("Failed to parse toy_be_posStack sla");
}

#[test]
fn test_toy_builder_be() {
    let text = doc_be();
    parse(text.as_bytes()).expect("Failed to parse toy_builder_be sla");
}

#[test]
fn test_toy_builder_be_align2() {
    let text = doc_be();
    parse(text.as_bytes()).expect("Failed to parse toy_builder_be_align2 sla");
}

#[test]
fn test_toy_builder_le() {
    let text = doc_le();
    parse(text.as_bytes()).expect("Failed to parse toy_builder_le sla");
}

#[test]
fn test_toy_builder_le_align2() {
    let text = doc_le();
    parse(text.as_bytes()).expect("Failed to parse toy_builder_le_align2 sla");
}

#[test]
fn test_toy_le() {
    let text = doc_le();
    parse(text.as_bytes()).expect("Failed to parse toy_le sla");
}

#[test]
fn test_toy_wsz_be() {
    let text = doc_be();
    parse(text.as_bytes()).expect("Failed to parse toy_wsz_be sla");
}

#[test]
fn test_toy_wsz_le() {
    let text = doc_le();
    parse(text.as_bytes()).expect("Failed to parse toy_wsz_le sla");
}

#[test]
fn test_V850() {
    let text = doc_le();
    parse(text.as_bytes()).expect("Failed to parse V850 sla");
}

#[test]
fn test_z180() {
    let text = doc_le();
    parse(text.as_bytes()).expect("Failed to parse z180 sla");
}

#[test]
fn test_z80() {
    let text = doc_le();
    parse(text.as_bytes()).expect("Failed to parse z80 sla");
}

#[test]
fn test_eBPF_le() {
    let text = doc_rich();
    parse(text.as_bytes()).expect("Failed to parse eBPF_le sla");
}

#[test]
fn test_tricore() {
    let text = doc_rich();
    parse(text.as_bytes()).expect("Failed to parse tricore sla");
}

#[test]
fn test_x86_64() {
    let text = doc_rich();
    parse(text.as_bytes()).expect("Failed to parse x86_64 sla");
}

#[test]
fn test_x86() {
    let text = doc_rich();
    parse(text.as_bytes()).expect("Failed to parse x86 sla");
}
